//! Reading what a branch serves: the assets of its entry page, the build
//! identifier of the response, the build number in the entry-point script,
//! and the script chunks that the chunk loader lists.

use vstd::prelude::*;
use vstd::string::StringSliceAdditionalSpecFns;
use vstd::utf8::{decode_utf8, encode_utf8_decode_utf8, valid_utf8};

use crate::asset::{
    is_asset_name, is_valid_name, of_type, root_script, AssetSpec, Assets, FeAsset, FeAssetType,
    RootScript,
};
use crate::branch::Branch;
use crate::manifest::{BuildSpec, FeBuild, FeManifest, ManifestSpec};
use crate::pattern::{captures, captures_iter, regex_captures, regex_captures_iter, Groups};
use crate::text::{find, first_occurrence, from_chars, parse_u32, parsed_u32, str_eq, to_chars};
use crate::webpack::ChunkId;

verus! {

/// The regular expression that finds the script tags of an entry page. Its
/// first group is the name of the script.
pub const SCRIPT_TAG_PATTERN: &'static str = "<script src=\"/assets/(?P<name>[\\.0-9a-z]+)\\.js\"";

/// The regular expression that finds the stylesheet links of an entry page.
/// Its first group is the name of the stylesheet.
pub const STYLE_TAG_PATTERN: &'static str = "<link href=\"/assets/(?P<name>[\\.0-9a-z]+)\\.css\"";

/// The regular expression that finds the build information as it was once
/// written. Its groups are the build number and the version hash.
pub const BUILD_INFO_PATTERN: &'static str =
    "Build Number: (?P<number>\\d+), Version Hash: (?P<hash>[0-9a-f]+)";

/// The regular expression that finds the build information as the bundler
/// splits it. Its groups are the build number and the version hash.
pub const BUILD_INFO_SPLIT_PATTERN: &'static str =
    "Build Number: \"\\)\\.concat\\(\"(?P<number>\\d+)\",\", Version Hash: \"\\)\\.concat\\(\"(?P<hash>[0-9a-f]+)\"\\)";

/// The regular expression that finds the script chunks in the chunk loader.
/// Its groups are the chunk identifier and the name of the chunk's script.
pub const CHUNK_HASH_PATTERN: &'static str = "(?P<chunk_id>\\d+):\"(?P<name>[a-f0-9]{20})\"";

/// The text that ends the script section of the chunk loader.
pub const SCRIPT_SECTION_LANDMARK: &'static str = "+\".js\"";

/// The header of the response that carries the build identifier.
pub const BUILD_ID_HEADER: &'static str = "x-build-id";

/// The time after which a request is given up, in seconds.
pub const FETCH_TIMEOUT_SECS: u64 = 10;

/// The path of the entry page below the base of a branch.
pub const BRANCH_PAGE_PATH: &'static str = "/channels/@me";

/// Why a request failed.
#[derive(Debug, Clone, PartialEq, Eq)]
pub enum NetworkError {
    /// The transport failed; the message is the client's.
    Isahc(String),
    /// The request could not be built; the message is the client's.
    Http(String),
    /// A header of the response is no text.
    MalforedHeader,
    /// The body could not be read; the message is the reader's.
    Io(String),
}

/// Why a scrape failed.
#[derive(Debug, Clone, PartialEq, Eq)]
pub enum ScrapeError {
    /// A request failed.
    Network(NetworkError),
    /// A fetched body is no UTF-8.
    Decoding,
    /// The entry page lacks assets; the text says which.
    MissingBranchPageAssets(&'static str),
    /// A script lacks the build information that was looked for in it.
    MissingStaticBuildInformation,
    /// The response lacks the header that carries the build identifier.
    MissingNetworkBuildInformation,
}

/// The failures of a scrape whose cause lies in what was fetched.
pub enum ScrapeFailure {
    MalformedHeader,
    Decoding,
    MissingBranchPageAssets(Seq<char>),
    MissingStaticBuildInformation,
    MissingNetworkBuildInformation,
}

impl NetworkError {
    /// The message of the error.
    pub fn to_string(&self) -> (r: String)
        ensures
            r@ == match *self {
                NetworkError::Isahc(_) => "isahc error"@,
                NetworkError::Http(_) => "http error"@,
                NetworkError::MalforedHeader => "encountered malformed HTTP header"@,
                NetworkError::Io(_) => "failed to perform i/o"@,
            },
    {
        match self {
            NetworkError::Isahc(_) => "isahc error".to_owned(),
            NetworkError::Http(_) => "http error".to_owned(),
            NetworkError::MalforedHeader => "encountered malformed HTTP header".to_owned(),
            NetworkError::Io(_) => "failed to perform i/o".to_owned(),
        }
    }
}

impl ScrapeError {
    /// Whether the error is the failure `failure`.
    pub open spec fn is_failure(self, failure: ScrapeFailure) -> bool {
        match (self, failure) {
            (
                ScrapeError::Network(NetworkError::MalforedHeader),
                ScrapeFailure::MalformedHeader,
            ) => true,
            (ScrapeError::Decoding, ScrapeFailure::Decoding) => true,
            (
                ScrapeError::MissingBranchPageAssets(why),
                ScrapeFailure::MissingBranchPageAssets(reason),
            ) => why@ == reason,
            (
                ScrapeError::MissingStaticBuildInformation,
                ScrapeFailure::MissingStaticBuildInformation,
            ) => true,
            (
                ScrapeError::MissingNetworkBuildInformation,
                ScrapeFailure::MissingNetworkBuildInformation,
            ) => true,
            _ => false,
        }
    }

    /// The message of the error.
    pub fn to_string(&self) -> (r: String)
        ensures
            r@ == match *self {
                ScrapeError::Network(_) => "network error"@,
                ScrapeError::Decoding => "malformed utf-8"@,
                ScrapeError::MissingBranchPageAssets(why) => "branch page is missing assets: "@
                    + why@,
                ScrapeError::MissingStaticBuildInformation => "missing static build information"@,
                ScrapeError::MissingNetworkBuildInformation =>
                    "missing networked build information"@,
            },
    {
        match self {
            ScrapeError::Network(_) => "network error".to_owned(),
            ScrapeError::Decoding => "malformed utf-8".to_owned(),
            ScrapeError::MissingBranchPageAssets(why) => {
                let mut out = "branch page is missing assets: ".to_owned();
                vstd::string::StringExecFns::append(&mut out, why);
                out
            },
            ScrapeError::MissingStaticBuildInformation => {
                "missing static build information".to_owned()
            },
            ScrapeError::MissingNetworkBuildInformation => {
                "missing networked build information".to_owned()
            },
        }
    }
}

/// `std::str::from_utf8` reads bytes as text: it returns the text where the
/// bytes are valid UTF-8, and that text is encoded by exactly these bytes;
/// it fails where they are not.
#[verifier::external_body]
pub(crate) fn text_of(bytes: &[u8]) -> (r: Option<&str>)
    ensures
        match r {
            Some(text) => valid_utf8(bytes@) && text.spec_bytes() == bytes@,
            None => !valid_utf8(bytes@),
        },
{
    std::str::from_utf8(bytes).ok()
}

/// What the group `index` of a match captured.
pub open spec fn captured(groups: Groups, index: int) -> Option<Seq<char>> {
    if 0 <= index < groups.len() {
        groups[index]
    } else {
        None
    }
}

/// The matches of a scan; none where the engine refused the pattern.
pub open spec fn found(matches: Option<Seq<Groups>>) -> Seq<Groups> {
    match matches {
        Some(matches) => matches,
        None => Seq::empty(),
    }
}

/// The asset that a tag match names: its first group is a well-formed asset
/// name.
pub open spec fn tag_asset(groups: Groups, typ: FeAssetType) -> Option<AssetSpec> {
    match captured(groups, 1) {
        Some(name) => if is_asset_name(name) {
            Some(AssetSpec { name, typ })
        } else {
            None
        },
        None => None,
    }
}

/// The assets that the tag matches `matches[..upto]` name, in their order.
pub open spec fn tag_assets(matches: Seq<Groups>, upto: nat, typ: FeAssetType) -> Seq<AssetSpec>
    decreases upto,
{
    if upto == 0 || upto > matches.len() {
        Seq::empty()
    } else {
        let rest = tag_assets(matches, (upto - 1) as nat, typ);
        match tag_asset(matches[upto - 1], typ) {
            Some(asset) => rest.push(asset),
            None => rest,
        }
    }
}

/// The scripts that the tags of a page reference, in the order in which the
/// scan of the page meets the tags.
pub open spec fn page_scripts(page: Seq<char>) -> Seq<AssetSpec> {
    let matches = found(regex_captures_iter(SCRIPT_TAG_PATTERN@, page));
    tag_assets(matches, matches.len(), FeAssetType::Js)
}

/// The stylesheets that the links of a page reference, in the order in
/// which the scan of the page meets the links.
pub open spec fn page_stylesheets(page: Seq<char>) -> Seq<AssetSpec> {
    let matches = found(regex_captures_iter(STYLE_TAG_PATTERN@, page));
    tag_assets(matches, matches.len(), FeAssetType::Css)
}

/// The assets of a page: its scripts, then its stylesheets.
pub open spec fn page_assets(page: Seq<char>) -> Seq<AssetSpec> {
    page_scripts(page) + page_stylesheets(page)
}

/// The assets of kind `typ` that tag matches name: the first group of each
/// match, where it is a well-formed asset name.
pub fn assets_from_matches(matches: &Vec<Vec<Option<String>>>, typ: FeAssetType) -> (r: Vec<
    FeAsset,
>)
    ensures
        r.deep_view() == tag_assets(matches.deep_view(), matches.deep_view().len(), typ),
{
    let mut out: Vec<FeAsset> = Vec::new();
    let mut i: usize = 0;
    assert(out.deep_view() =~= tag_assets(matches.deep_view(), 0, typ));
    while i < matches.len()
        invariant
            i <= matches@.len(),
            matches.deep_view().len() == matches@.len(),
            out.deep_view() == tag_assets(matches.deep_view(), i as nat, typ),
        decreases matches@.len() - i,
    {
        let groups = &matches[i];
        assert(matches.deep_view()[i as int] == groups.deep_view());
        let ghost before = out.deep_view();
        if groups.len() > 1 {
            assert(groups.deep_view()[1] == groups@[1].deep_view());
            if let Some(name) = &groups[1] {
                if is_valid_name(name.as_str()) {
                    let asset = FeAsset::new(name.as_str(), typ);
                    out.push(asset);
                    assert(out.deep_view() =~= before.push(
                        AssetSpec { name: name@, typ },
                    ));
                }
            }
        }
        i += 1;
    }
    out
}

/// Extracts the assets that the `<script>` and `<link>` tags of a page
/// reference: the scripts first, the stylesheets after them.
pub fn extract_assets_from_tags(page_content: &str) -> (r: Vec<FeAsset>)
    ensures
        r.deep_view() == page_assets(page_content@),
{
    let mut assets = match captures_iter(SCRIPT_TAG_PATTERN, page_content) {
        Some(matches) => assets_from_matches(&matches, FeAssetType::Js),
        None => Vec::new(),
    };
    assert(assets.deep_view() =~= page_scripts(page_content@));
    let mut stylesheets = match captures_iter(STYLE_TAG_PATTERN, page_content) {
        Some(matches) => assets_from_matches(&matches, FeAssetType::Css),
        None => Vec::new(),
    };
    assert(stylesheets.deep_view() =~= page_stylesheets(page_content@));
    let ghost scripts = assets.deep_view();
    assets.append(&mut stylesheets);
    assert(assets.deep_view() =~= scripts + page_stylesheets(page_content@));
    assets
}

/// Whether a byte of a header value is visible ASCII: a printable character
/// or a tab.
pub open spec fn is_visible_ascii(b: u8) -> bool {
    (32 <= b && b < 127) || b == 9
}

/// The text of a header value: its bytes read as ASCII, where all of them
/// are visible.
pub open spec fn header_text(value: Seq<u8>) -> Option<Seq<char>> {
    if forall|i: int| 0 <= i < value.len() ==> is_visible_ascii(#[trigger] value[i]) {
        Some(Seq::new(value.len(), |i: int| value[i] as char))
    } else {
        None
    }
}

/// The bytes of a header value, if the response carried the header.
pub open spec fn header_bytes(value: Option<&[u8]>) -> Option<Seq<u8>> {
    match value {
        Some(bytes) => Some(bytes@),
        None => None,
    }
}

/// Reads a header value as text. A value that holds anything but visible
/// ASCII is refused.
pub fn header_to_str(value: &[u8]) -> (r: Option<String>)
    ensures
        match header_text(value@) {
            Some(text) => r matches Some(found) && found@ == text,
            None => r is None,
        },
{
    let mut out = String::new();
    let mut i: usize = 0;
    while i < value.len()
        invariant
            i <= value@.len(),
            forall|j: int| 0 <= j < i ==> is_visible_ascii(#[trigger] value@[j]),
            out@ == Seq::new(i as nat, |j: int| value@[j] as char),
        decreases value@.len() - i,
    {
        let b = value[i];
        if !((32 <= b && b < 127) || b == 9) {
            assert(!is_visible_ascii(value@[i as int]));
            return None;
        }
        out.push(b as char);
        assert(out@ =~= Seq::new((i + 1) as nat, |j: int| value@[j] as char));
        i += 1;
    }
    Some(out)
}

/// What the scrape of a branch page yields. The page must reference an
/// asset, a script and a stylesheet, and the response must carry a build
/// identifier that is text; each lack is a failure of its own, in this
/// order.
pub open spec fn manifest_of(branch: Branch, page: Seq<char>, build_id: Option<Seq<u8>>) -> Result<
    ManifestSpec,
    ScrapeFailure,
> {
    let assets = page_assets(page);
    if assets.len() == 0 {
        Err(ScrapeFailure::MissingBranchPageAssets("no assets were found whatsoever"@))
    } else if of_type(assets, FeAssetType::Js).len() < 1 {
        Err(ScrapeFailure::MissingBranchPageAssets("couldn't find at least one script"@))
    } else if of_type(assets, FeAssetType::Css).len() < 1 {
        Err(ScrapeFailure::MissingBranchPageAssets("couldn't find at least one stylesheet"@))
    } else {
        match build_id {
            None => Err(ScrapeFailure::MissingNetworkBuildInformation),
            Some(value) => match header_text(value) {
                None => Err(ScrapeFailure::MalformedHeader),
                Some(hash) => Ok(ManifestSpec { branch, hash, assets }),
            },
        }
    }
}

/// The address of the entry page of a branch.
pub fn branch_page_url(branch: Branch) -> (r: String)
    requires
        !(branch is Development),
    ensures
        r@ == branch.origin() + BRANCH_PAGE_PATH@,
{
    let mut out = branch.base();
    vstd::string::StringExecFns::append(&mut out, BRANCH_PAGE_PATH);
    out
}

/// Makes the manifest of a branch from what its entry page answered: the
/// text of the page and the value of the build identifier header, if the
/// response carried one.
pub fn scrape_fe_manifest(branch: Branch, page_content: &str, build_id: Option<&[u8]>) -> (r:
    Result<FeManifest, ScrapeError>)
    ensures
        match (r, manifest_of(branch, page_content@, header_bytes(build_id))) {
            (Ok(manifest), Ok(spec)) => manifest@ == spec,
            (Err(error), Err(failure)) => error.is_failure(failure),
            _ => false,
        },
{
    let assets = extract_assets_from_tags(page_content);
    assert(assets.deep_view().len() == assets@.len());
    if assets.len() == 0 {
        return Err(ScrapeError::MissingBranchPageAssets("no assets were found whatsoever"));
    }
    let scripts = crate::asset::filter_by_type(&assets, FeAssetType::Js);
    assert(scripts.deep_view().len() == scripts@.len());
    if scripts.len() < 1 {
        return Err(ScrapeError::MissingBranchPageAssets("couldn't find at least one script"));
    }
    let stylesheets = crate::asset::filter_by_type(&assets, FeAssetType::Css);
    assert(stylesheets.deep_view().len() == stylesheets@.len());
    if stylesheets.len() < 1 {
        return Err(ScrapeError::MissingBranchPageAssets("couldn't find at least one stylesheet"));
    }
    let value = match build_id {
        Some(value) => value,
        None => {
            return Err(ScrapeError::MissingNetworkBuildInformation);
        },
    };
    let hash = match header_to_str(value) {
        Some(hash) => hash,
        None => {
            return Err(ScrapeError::Network(NetworkError::MalforedHeader));
        },
    };
    Ok(FeManifest { branch, hash, assets: Assets::with_assets(assets) })
}

/// The build information that a match of one of the build information
/// patterns holds: the version hash of the second group and the number that
/// the first group writes. A number beyond 32 bits is no build number.
pub open spec fn build_information(groups: Groups) -> Option<(Seq<char>, u32)> {
    match (captured(groups, 1), captured(groups, 2)) {
        (Some(number), Some(hash)) => match parsed_u32(number) {
            Some(number) => Some((hash, number)),
            None => None,
        },
        _ => None,
    }
}

/// The match that carries the build information of a script: that of the
/// bundler-split pattern, or else that of the older pattern.
pub open spec fn build_information_match(js: Seq<char>) -> Option<Groups> {
    match regex_captures(BUILD_INFO_SPLIT_PATTERN@, js) {
        Some(Some(groups)) => Some(groups),
        _ => match regex_captures(BUILD_INFO_PATTERN@, js) {
            Some(Some(groups)) => Some(groups),
            _ => None,
        },
    }
}

/// The build information of a script: its version hash and build number.
pub open spec fn static_build_information(js: Seq<char>) -> Option<(Seq<char>, u32)> {
    match build_information_match(js) {
        Some(groups) => build_information(groups),
        None => None,
    }
}

/// Reads the version hash and the build number out of a match of one of the
/// build information patterns.
pub fn read_build_information(groups: &Vec<Option<String>>) -> (r: Result<
    (String, u32),
    ScrapeError,
>)
    ensures
        match build_information(groups.deep_view()) {
            Some((hash, number)) => r matches Ok((found, n)) && found@ == hash && n == number,
            None => r matches Err(ScrapeError::MissingStaticBuildInformation),
        },
{
    if groups.len() < 3 {
        return Err(ScrapeError::MissingStaticBuildInformation);
    }
    assert(groups.deep_view()[1] == groups@[1].deep_view());
    assert(groups.deep_view()[2] == groups@[2].deep_view());
    match (&groups[1], &groups[2]) {
        (Some(number), Some(hash)) => match parse_u32(number.as_str()) {
            Some(number) => Ok((hash.clone(), number)),
            None => Err(ScrapeError::MissingStaticBuildInformation),
        },
        _ => Err(ScrapeError::MissingStaticBuildInformation),
    }
}

/// Extracts the build information from the text of a script: the version
/// hash and the build number. The bundler-split form is looked for first,
/// the older form after it.
pub fn match_static_build_information(js: &str) -> (r: Result<(String, u32), ScrapeError>)
    ensures
        match static_build_information(js@) {
            Some((hash, number)) => r matches Ok((found, n)) && found@ == hash && n == number,
            None => r matches Err(ScrapeError::MissingStaticBuildInformation),
        },
{
    if let Some(Some(groups)) = captures(BUILD_INFO_SPLIT_PATTERN, js) {
        return read_build_information(&groups);
    }
    if let Some(Some(groups)) = captures(BUILD_INFO_PATTERN, js) {
        return read_build_information(&groups);
    }
    Err(ScrapeError::MissingStaticBuildInformation)
}

/// What is told of a page that has no script before the last, so that none
/// can hold the build information.
pub const MISSING_BUILD_SCRIPT: &'static str = "couldn't find a script before the last";

/// The script in which the build information is looked for: the one before
/// the last. A manifest of fewer than two scripts has none.
pub fn build_information_script(manifest: &FeManifest) -> (r: Result<FeAsset, ScrapeError>)
    ensures
        match root_script(manifest@.assets, RootScript::Entrypoint) {
            Some(a) => r matches Ok(found) && found@ == a,
            None => r matches Err(ScrapeError::MissingBranchPageAssets(why)) && why@
                == MISSING_BUILD_SCRIPT@,
        },
{
    match manifest.assets.find_root_script(RootScript::Entrypoint) {
        Some(asset) => Ok(asset),
        None => Err(ScrapeError::MissingBranchPageAssets(MISSING_BUILD_SCRIPT)),
    }
}

/// What a manifest and the content of its entry-point script make: a build
/// with the number that the script holds. A manifest that has no script
/// before the last makes none, whatever the content is.
pub open spec fn build_of(manifest: ManifestSpec, content: Seq<u8>) -> Result<
    BuildSpec,
    ScrapeFailure,
> {
    if root_script(manifest.assets, RootScript::Entrypoint) is None {
        Err(ScrapeFailure::MissingBranchPageAssets(MISSING_BUILD_SCRIPT@))
    } else if !valid_utf8(content) {
        Err(ScrapeFailure::Decoding)
    } else {
        match static_build_information(decode_utf8(content)) {
            Some((_, number)) => Ok(BuildSpec { manifest, number }),
            None => Err(ScrapeFailure::MissingStaticBuildInformation),
        }
    }
}

/// Makes a build from a manifest and the content of the script that holds
/// its build information, the script before the last. A manifest without
/// such a script is refused. The hash of the build stays the one of the
/// manifest.
pub fn scrape_fe_build(fe_manifest: FeManifest, content: &[u8]) -> (r: Result<
    FeBuild,
    ScrapeError,
>)
    ensures
        match (r, build_of(fe_manifest@, content@)) {
            (Ok(build), Ok(spec)) => build@ == spec,
            (Err(error), Err(failure)) => error.is_failure(failure),
            _ => false,
        },
{
    if let Err(error) = build_information_script(&fe_manifest) {
        return Err(error);
    }
    let entrypoint_js = match text_of(content) {
        Some(text) => text,
        None => {
            return Err(ScrapeError::Decoding);
        },
    };
    proof {
        encode_utf8_decode_utf8(entrypoint_js@);
    }
    match match_static_build_information(entrypoint_js) {
        Ok((_, number)) => Ok(FeBuild { manifest: fe_manifest, number }),
        Err(error) => Err(error),
    }
}

/// Whether `c` is a lowercase hexadecimal digit.
pub open spec fn is_hex_char(c: char) -> bool {
    ('0' <= c && c <= '9') || ('a' <= c && c <= 'f')
}

/// Whether `name` is the name of a script chunk: twenty lowercase
/// hexadecimal digits.
pub open spec fn is_chunk_name(name: Seq<char>) -> bool {
    name.len() == 20 && forall|i: int| 0 <= i < name.len() ==> is_hex_char(#[trigger] name[i])
}

/// Whether `name` is the name of a script chunk.
pub fn is_valid_chunk_name(name: &str) -> (r: bool)
    ensures
        r == is_chunk_name(name@),
{
    let chars = to_chars(name);
    if chars.len() != 20 {
        return false;
    }
    let mut i: usize = 0;
    while i < chars.len()
        invariant
            i <= chars@.len(),
            chars@ == name@,
            chars@.len() == 20,
            forall|j: int| 0 <= j < i ==> is_hex_char(#[trigger] chars@[j]),
        decreases chars@.len() - i,
    {
        let c = chars[i];
        if !(('0' <= c && c <= '9') || ('a' <= c && c <= 'f')) {
            assert(!is_hex_char(chars@[i as int]));
            return false;
        }
        i += 1;
    }
    true
}

/// The script chunk that a match in the chunk loader names: the first group
/// writes a chunk identifier of 32 bits, the second is a chunk name.
pub open spec fn chunk_asset(groups: Groups) -> Option<(ChunkId, AssetSpec)> {
    match (captured(groups, 1), captured(groups, 2)) {
        (Some(id), Some(name)) => match parsed_u32(id) {
            Some(id) => if is_chunk_name(name) {
                Some((id, AssetSpec { name, typ: FeAssetType::Js }))
            } else {
                None
            },
            None => None,
        },
        _ => None,
    }
}

/// The script chunks that the matches `matches[..upto]` name, in their
/// order.
pub open spec fn chunk_assets(matches: Seq<Groups>, upto: nat) -> Seq<(ChunkId, AssetSpec)>
    decreases upto,
{
    if upto == 0 || upto > matches.len() {
        Seq::empty()
    } else {
        let rest = chunk_assets(matches, (upto - 1) as nat);
        match chunk_asset(matches[upto - 1]) {
            Some(chunk) => rest.push(chunk),
            None => rest,
        }
    }
}

/// The script section of the chunk loader: the text before the first
/// landmark.
pub open spec fn script_section(text: Seq<char>) -> Option<Seq<char>> {
    match first_occurrence(text, SCRIPT_SECTION_LANDMARK@) {
        Some(at) => Some(text.subrange(0, at)),
        None => None,
    }
}

/// The script chunks that the content of a chunk loader lists.
pub open spec fn chunk_loader_assets(content: Seq<u8>) -> Result<
    Seq<(ChunkId, AssetSpec)>,
    ScrapeFailure,
> {
    if !valid_utf8(content) {
        Err(ScrapeFailure::Decoding)
    } else {
        match script_section(decode_utf8(content)) {
            None => Err(ScrapeFailure::MissingStaticBuildInformation),
            Some(section) => {
                let matches = found(regex_captures_iter(CHUNK_HASH_PATTERN@, section));
                Ok(chunk_assets(matches, matches.len()))
            },
        }
    }
}

/// The script chunks that matches in the chunk loader name: the chunk
/// identifier of the first group with the script named by the second.
pub fn chunks_from_matches(matches: &Vec<Vec<Option<String>>>) -> (r: Vec<(ChunkId, FeAsset)>)
    ensures
        r.deep_view() == chunk_assets(matches.deep_view(), matches.deep_view().len()),
{
    let mut out: Vec<(ChunkId, FeAsset)> = Vec::new();
    let mut i: usize = 0;
    assert(out.deep_view() =~= chunk_assets(matches.deep_view(), 0));
    while i < matches.len()
        invariant
            i <= matches@.len(),
            matches.deep_view().len() == matches@.len(),
            out.deep_view() == chunk_assets(matches.deep_view(), i as nat),
        decreases matches@.len() - i,
    {
        let groups = &matches[i];
        assert(matches.deep_view()[i as int] == groups.deep_view());
        let ghost before = out.deep_view();
        if groups.len() > 2 {
            assert(groups.deep_view()[1] == groups@[1].deep_view());
            assert(groups.deep_view()[2] == groups@[2].deep_view());
            if let (Some(id), Some(name)) = (&groups[1], &groups[2]) {
                if let Some(id) = parse_u32(id.as_str()) {
                    if is_valid_chunk_name(name.as_str()) {
                        let asset = FeAsset::new(name.as_str(), FeAssetType::Js);
                        out.push((id, asset));
                        assert(out.deep_view() =~= before.push(
                            (id, AssetSpec { name: name@, typ: FeAssetType::Js }),
                        ));
                    }
                }
            }
        }
        i += 1;
    }
    out
}

/// The chunk loader among the assets of a manifest: the last script.
pub fn chunk_loader_script(manifest: &FeManifest) -> (r: Result<FeAsset, ScrapeError>)
    ensures
        match root_script(manifest@.assets, RootScript::ChunkLoader) {
            Some(a) => r matches Ok(found) && found@ == a,
            None => r matches Err(ScrapeError::MissingBranchPageAssets(why)) && why@
                == "chunk loader"@,
        },
{
    match manifest.assets.find_root_script(RootScript::ChunkLoader) {
        Some(asset) => Ok(asset),
        None => Err(ScrapeError::MissingBranchPageAssets("chunk loader")),
    }
}

/// Identifies the script chunks that the content of the chunk loader lists.
/// The chunk loader has a section for scripts and one for stylesheets; only
/// the first is read, up to the landmark that ends it.
pub fn extract_assets_from_chunk_loader(content: &[u8]) -> (r: Result<
    Vec<(ChunkId, FeAsset)>,
    ScrapeError,
>)
    ensures
        match (r, chunk_loader_assets(content@)) {
            (Ok(chunks), Ok(spec)) => chunks.deep_view() == spec,
            (Err(error), Err(failure)) => error.is_failure(failure),
            _ => false,
        },
{
    let text = match text_of(content) {
        Some(text) => text,
        None => {
            return Err(ScrapeError::Decoding);
        },
    };
    proof {
        encode_utf8_decode_utf8(text@);
    }
    let chars = to_chars(text);
    let landmark = to_chars(SCRIPT_SECTION_LANDMARK);
    let at = match find(&chars, &landmark) {
        Some(at) => at,
        None => {
            return Err(ScrapeError::MissingStaticBuildInformation);
        },
    };
    let section = from_chars(&chars, 0, at);
    match captures_iter(CHUNK_HASH_PATTERN, section.as_str()) {
        Some(matches) => Ok(chunks_from_matches(&matches)),
        None => {
            let none: Vec<(ChunkId, FeAsset)> = Vec::new();
            assert(none.deep_view() =~= Seq::<(ChunkId, AssetSpec)>::empty());
            Ok(none)
        },
    }
}

/// A scrape target.
#[derive(Debug, Clone, Copy, PartialEq, Eq, Structural)]
pub enum Target {
    /// The frontend of a branch.
    Frontend(Branch),
}

/// The index of the first `c` in `text`.
pub open spec fn first_index_of(text: Seq<char>, c: char) -> Option<int> {
    if exists|i: int| 0 <= i < text.len() && text[i] == c {
        Some(
            choose|i: int|
                0 <= i < text.len() && text[i] == c && forall|j: int| 0 <= j < i ==> text[j] != c,
        )
    } else {
        None
    }
}

/// The target that `s` names: a source, a colon and a variant. The only
/// source is `fe`, whose variants are the branches that have a frontend.
pub open spec fn target_named(s: Seq<char>) -> Result<Target, Seq<char>> {
    match first_index_of(s, ':') {
        None => Err("missing colon"@),
        Some(colon) => if s.subrange(0, colon) == "fe"@ {
            match Branch::named(s.subrange(colon + 1, s.len() as int)) {
                None => Err("invalid branch"@),
                Some(branch) => if branch is Development {
                    Err("branch has no frontend"@)
                } else {
                    Ok(Target::Frontend(branch))
                },
            }
        } else {
            Err("unknown source"@)
        },
    }
}

impl Target {
    /// Reads a target from its name, such as `fe:canary`.
    pub fn from_str(s: &str) -> (r: Result<Target, &'static str>)
        ensures
            match (r, target_named(s@)) {
                (Ok(target), Ok(named)) => target == named,
                (Err(why), Err(reason)) => why@ == reason,
                _ => false,
            },
    {
        let chars = to_chars(s);
        let mut colon: usize = 0;
        while colon < chars.len() && chars[colon] != ':'
            invariant
                colon <= chars@.len(),
                forall|j: int| 0 <= j < colon ==> chars@[j] != ':',
            decreases chars@.len() - colon,
        {
            colon += 1;
        }
        if colon == chars.len() {
            return Err("missing colon");
        }
        proof {
            let found = first_index_of(s@, ':')->0;
            assert(0 <= found < s@.len() && s@[found] == ':' && forall|j: int|
                0 <= j < found ==> s@[j] != ':');
            if found < colon {
                assert(chars@[found] != ':');
            }
        }
        let source = from_chars(&chars, 0, colon);
        let variant = from_chars(&chars, colon + 1, chars.len());
        if !str_eq(source.as_str(), "fe") {
            return Err("unknown source");
        }
        match Branch::from_str(variant.as_str()) {
            Err(_) => Err("invalid branch"),
            Ok(branch) => if !branch.has_frontend() {
                Err("branch has no frontend")
            } else {
                Ok(Target::Frontend(branch))
            },
        }
    }
}

/// The assets of a page are its scripts followed by its stylesheets, each
/// group in the order of the scan, and every name among them is well
/// formed.
pub proof fn page_assets_are_scripts_then_stylesheets(page: Seq<char>)
    ensures
        page_assets(page) == page_scripts(page) + page_stylesheets(page),
        of_type(page_assets(page), FeAssetType::Js) == page_scripts(page),
        of_type(page_assets(page), FeAssetType::Css) == page_stylesheets(page),
        forall|i: int|
            0 <= i < page_scripts(page).len() ==> (#[trigger] page_assets(page)[i]).typ
                == FeAssetType::Js,
        forall|i: int|
            page_scripts(page).len() <= i < page_assets(page).len() ==> (#[trigger] page_assets(
                page,
            )[i]).typ == FeAssetType::Css,
        forall|i: int|
            0 <= i < page_assets(page).len() ==> is_asset_name((#[trigger] page_assets(page)[i]).name),
{
    let script_matches = found(regex_captures_iter(SCRIPT_TAG_PATTERN@, page));
    let style_matches = found(regex_captures_iter(STYLE_TAG_PATTERN@, page));
    let scripts = page_scripts(page);
    let styles = page_stylesheets(page);
    tag_assets_are_valid(script_matches, script_matches.len(), FeAssetType::Js);
    tag_assets_are_valid(style_matches, style_matches.len(), FeAssetType::Css);
    let is_js = |a: AssetSpec| a.typ == FeAssetType::Js;
    let is_css = |a: AssetSpec| a.typ == FeAssetType::Css;
    Seq::filter_distributes_over_add(scripts, styles, is_js);
    Seq::filter_distributes_over_add(scripts, styles, is_css);
    all_of_type(scripts, FeAssetType::Js);
    all_of_type(styles, FeAssetType::Css);
    none_of_type(scripts, FeAssetType::Js, FeAssetType::Css);
    none_of_type(styles, FeAssetType::Css, FeAssetType::Js);
    assert(scripts + Seq::<AssetSpec>::empty() =~= scripts);
    assert(Seq::<AssetSpec>::empty() + styles =~= styles);
}

/// The assets that tag matches name are of the kind asked for, and their
/// names are well formed.
pub proof fn tag_assets_are_valid(matches: Seq<Groups>, upto: nat, typ: FeAssetType)
    ensures
        forall|i: int|
            0 <= i < tag_assets(matches, upto, typ).len() ==> {
                let asset = #[trigger] tag_assets(matches, upto, typ)[i];
                asset.typ == typ && is_asset_name(asset.name)
            },
    decreases upto,
{
    if upto > 0 && upto <= matches.len() {
        tag_assets_are_valid(matches, (upto - 1) as nat, typ);
    }
}

/// Where all assets are of one kind, the assets of that kind are all of
/// them.
proof fn all_of_type(assets: Seq<AssetSpec>, typ: FeAssetType)
    requires
        forall|i: int| 0 <= i < assets.len() ==> (#[trigger] assets[i]).typ == typ,
    ensures
        of_type(assets, typ) == assets,
    decreases assets.len(),
{
    let pred = |a: AssetSpec| a.typ == typ;
    reveal(Seq::filter);
    if assets.len() > 0 {
        all_of_type(assets.drop_last(), typ);
        assert(assets.drop_last().push(assets.last()) =~= assets);
    }
}

/// Where all assets are of one kind, there are none of another.
proof fn none_of_type(assets: Seq<AssetSpec>, typ: FeAssetType, other: FeAssetType)
    requires
        typ != other,
        forall|i: int| 0 <= i < assets.len() ==> (#[trigger] assets[i]).typ == typ,
    ensures
        of_type(assets, other) == Seq::<AssetSpec>::empty(),
    decreases assets.len(),
{
    reveal(Seq::filter);
    if assets.len() > 0 {
        none_of_type(assets.drop_last(), typ, other);
    }
}

} // verus!
