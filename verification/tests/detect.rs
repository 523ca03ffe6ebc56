use havoc::asset::{FeAsset, FeAssetType};
use havoc::cache::AssetCache;
use havoc::catalog::PersistenceError;
use havoc::branch::Branch;
use havoc::config::{subscriptions_for, Subscription};
use havoc::detect::{
    begin, detect_changes_on_branch, first_failure, step, Action, Attempt, DetectError, Event,
};
use havoc::scrape::ScrapeError;
use havoc::store::Catalog;
use havoc::webhook::{post_build_to_webhook, WebhookMessage};

const PAGE: &str = "<!DOCTYPE html><html><head>\
<link href=\"/assets/eeeeeeeeeeeeeeeeeeee.css\" rel=\"stylesheet\">\
</head><body>\
<script src=\"/assets/aaaaaaaaaaaaaaaaaaaa.js\" integrity=\"x\"></script>\
<script src=\"/assets/bbbbbbbbbbbbbbbbbbbb.js\" integrity=\"y\"></script>\
<script src=\"/assets/cccccccccccccccccccc.js\" integrity=\"z\"></script>\
<script src=\"/assets/dddddddddddddddddddd.js\" integrity=\"w\"></script>\
</body></html>";

const ENTRYPOINT: &[u8] = b"var a=1;log(\"Build Number: 42, Version Hash: 0a1\");";

const CHUNK_LOADER: &[u8] =
    b"f.u=function(e){return\"\"+({7:\"0123456789abcdef0123\"})[e]+\".js\"}";

const NOW: i64 = 1704164645678;

/// What the surroundings of an attempt were asked to do, in order.
#[derive(Debug)]
struct Surroundings {
    catalog: Catalog,
    fetched: Vec<String>,
    posted: Vec<(String, WebhookMessage)>,
}

impl Surroundings {
    fn new() -> Self {
        Surroundings { catalog: Catalog::new(), fetched: Vec::new(), posted: Vec::new() }
    }
}

fn content_of(asset: &FeAsset) -> Vec<u8> {
    if asset.name == "cccccccccccccccccccc" {
        ENTRYPOINT.to_vec()
    } else if asset.name == "dddddddddddddddddddd" {
        CHUNK_LOADER.to_vec()
    } else {
        panic!("an asset was fetched that nothing should read: {:?}", asset)
    }
}

fn attempt(
    around: &mut Surroundings,
    branch: Branch,
    page: &str,
    build_id: Option<&[u8]>,
    subscriptions: &Vec<Subscription>,
) -> Result<(), DetectError> {
    let mut state = begin(branch);
    let mut event = Event::Begin;
    loop {
        let (next, action) = step(state, event)?;
        event = match action {
            Action::FetchBranchPage { url } => {
                around.fetched.push(url);
                Event::BranchPage {
                    content: page.to_owned(),
                    build_id: build_id.map(|value| value.to_vec()),
                }
            }
            Action::ReadLastKnownHash { branch } => {
                Event::LastKnownHash(around.catalog.last_known_build_hash_on_branch(branch))
            }
            Action::FetchContent { asset } => {
                around.fetched.push(asset.url());
                Event::Content(content_of(&asset))
            }
            Action::ReadCatalogued { hash } => {
                Event::Catalogued(around.catalog.build_hash_is_catalogued(&hash))
            }
            Action::RecordDeploy { record } => {
                let build = match &next {
                    Attempt::AwaitingRecord { build, .. } => build.clone(),
                    other => panic!("no deploy is awaited: {:?}", other),
                };
                assert_eq!(record.build_id, build.manifest.hash);
                assert_eq!(record.build_number as u32, build.number);
                assert_eq!(record.branch, branch.as_str());
                around.catalog.detected_build_change_on_branch(&build, branch).unwrap();
                Event::Done
            }
            Action::CatalogAssets { hash, rows } => {
                for row in &rows {
                    around.catalog.insert_and_associate(&hash, row);
                }
                Event::Done
            }
            Action::Publish { build } => {
                for index in subscriptions_for(subscriptions, branch) {
                    let message = post_build_to_webhook(&build, NOW).unwrap();
                    around
                        .posted
                        .push((subscriptions[index].discord_webhook_url.clone(), message));
                }
                Event::Done
            }
            Action::Finish => return Ok(()),
        };
        state = next;
    }
}

fn subscribers() -> Vec<Subscription> {
    vec![
        Subscription { branches: vec![Branch::Stable], discord_webhook_url: "stable".to_owned() },
        Subscription { branches: vec![Branch::Canary], discord_webhook_url: "canary".to_owned() },
    ]
}

#[test]
fn fresh_detection() {
    let mut around = Surroundings::new();
    attempt(&mut around, Branch::Canary, PAGE, Some(b"h1"), &subscribers()).unwrap();
    assert_eq!(around.catalog.build_count(), 1);
    assert_eq!(around.catalog.build_number("h1"), Some(42));
    assert_eq!(around.catalog.deploy_count(), 1);
    assert_eq!(
        around.catalog.last_known_build_hash_on_branch(Branch::Canary),
        Some("h1".to_owned())
    );
    assert_eq!(around.posted.len(), 1);
    assert_eq!(around.posted[0].0, "canary");
    assert_eq!(around.posted[0].1.title, "Canary 42");
    assert_eq!(around.posted[0].1.description, "Hash: `h1`");
    assert_eq!(
        around.fetched,
        vec![
            "https://canary.discord.com/channels/@me".to_owned(),
            "https://discord.com/assets/cccccccccccccccccccc.js".to_owned(),
            "https://discord.com/assets/dddddddddddddddddddd.js".to_owned(),
        ]
    );
    assert_eq!(around.catalog.asset_count(), 6);
    assert_eq!(around.catalog.tie_count(), 6);
    assert!(around.catalog.asset("0123456789abcdef0123.js").is_some());
}

#[test]
fn stale_cycle() {
    let mut around = Surroundings::new();
    attempt(&mut around, Branch::Canary, PAGE, Some(b"h1"), &subscribers()).unwrap();
    around.posted.clear();
    around.fetched.clear();
    attempt(&mut around, Branch::Canary, PAGE, Some(b"h1"), &subscribers()).unwrap();
    assert_eq!(around.catalog.build_count(), 1);
    assert_eq!(around.catalog.deploy_count(), 1);
    assert_eq!(around.catalog.asset_count(), 6);
    assert!(around.posted.is_empty());
    assert_eq!(around.fetched, vec!["https://canary.discord.com/channels/@me".to_owned()]);
}

#[test]
fn a_build_seen_on_another_branch_is_recorded_but_not_catalogued_again() {
    let mut around = Surroundings::new();
    attempt(&mut around, Branch::Canary, PAGE, Some(b"h1"), &subscribers()).unwrap();
    around.fetched.clear();
    attempt(&mut around, Branch::Stable, PAGE, Some(b"h1"), &subscribers()).unwrap();
    assert_eq!(around.catalog.build_count(), 1);
    assert_eq!(around.catalog.deploy_count(), 2);
    assert_eq!(around.posted.len(), 2);
    assert_eq!(around.posted[1].0, "stable");
    assert_eq!(around.posted[1].1.title, "Stable 42");
    assert_eq!(
        around.fetched,
        vec![
            "https://discord.com/channels/@me".to_owned(),
            "https://discord.com/assets/cccccccccccccccccccc.js".to_owned(),
        ]
    );
}

#[test]
fn broken_html() {
    let mut around = Surroundings::new();
    let page = "<html><script src=\"/assets/aaaaaaaaaaaaaaaaaaaa.js\"></script></html>";
    let failed = attempt(&mut around, Branch::Canary, page, Some(b"h1"), &subscribers());
    assert_eq!(
        failed,
        Err(DetectError::Scrape(ScrapeError::MissingBranchPageAssets(
            "couldn't find at least one stylesheet"
        )))
    );
    assert_eq!(around.catalog.build_count(), 0);
    assert_eq!(around.catalog.deploy_count(), 0);
    assert_eq!(around.catalog.asset_count(), 0);
    assert!(around.posted.is_empty());
}

#[test]
fn an_attempt_gives_up_on_what_it_cannot_read() {
    let mut around = Surroundings::new();
    assert_eq!(
        attempt(&mut around, Branch::Development, PAGE, Some(b"h1"), &subscribers()),
        Err(DetectError::NoFrontend)
    );
    let one_script = "<script src=\"/assets/a.js\"><link href=\"/assets/s.css\">";
    assert_eq!(
        attempt(&mut around, Branch::Canary, one_script, Some(b"h1"), &subscribers()),
        Err(DetectError::Scrape(ScrapeError::MissingBranchPageAssets(
            "couldn't find a script before the last"
        )))
    );
    assert_eq!(
        attempt(&mut around, Branch::Canary, PAGE, None, &subscribers()),
        Err(DetectError::Scrape(ScrapeError::MissingNetworkBuildInformation))
    );
    assert_eq!(around.catalog.deploy_count(), 0);
}

#[test]
fn an_event_that_answers_nothing_is_refused() {
    assert_eq!(step(begin(Branch::Canary), Event::Done).err(), Some(DetectError::UnexpectedEvent));
    assert_eq!(
        step(Attempt::Finished, Event::Begin).err(),
        Some(DetectError::UnexpectedEvent)
    );
    assert_eq!(
        step(Attempt::AwaitingPublish, Event::Catalogued(true)).err(),
        Some(DetectError::UnexpectedEvent)
    );
    let (state, action) = step(Attempt::AwaitingPublish, Event::Done).unwrap();
    assert!(matches!(state, Attempt::Finished));
    assert!(matches!(action, Action::Finish));
}

fn fetched() -> AssetCache {
    let mut contents = AssetCache::new();
    let entrypoint = FeAsset::new("cccccccccccccccccccc", FeAssetType::Js);
    let loader = FeAsset::new("dddddddddddddddddddd", FeAssetType::Js);
    contents.store_raw_content(&entrypoint, ENTRYPOINT.to_vec());
    contents.store_raw_content(&loader, CHUNK_LOADER.to_vec());
    contents
}

#[test]
fn detection_in_memory_records_catalogs_and_tells() {
    let mut catalog = Catalog::new();
    let subscriptions = subscribers();
    let contents = fetched();
    let posted = detect_changes_on_branch(
        &mut catalog,
        Branch::Canary,
        &subscriptions,
        PAGE,
        Some(b"h1"),
        &contents,
        NOW,
    )
    .unwrap();
    assert_eq!(posted.len(), 1);
    assert_eq!(posted[0].0, 1);
    assert_eq!(posted[0].1.title, "Canary 42");
    assert_eq!(posted[0].1.description, "Hash: `h1`");
    assert_eq!(posted[0].1.timestamp, "2024-01-02T03:04:05.678Z");
    assert_eq!(catalog.build_count(), 1);
    assert_eq!(catalog.build_number("h1"), Some(42));
    assert_eq!(catalog.deploy_count(), 1);
    assert_eq!(catalog.asset_count(), 6);
    assert_eq!(catalog.tie_count(), 6);

    let again = detect_changes_on_branch(
        &mut catalog,
        Branch::Canary,
        &subscriptions,
        PAGE,
        Some(b"h1"),
        &contents,
        NOW,
    );
    assert_eq!(again, Ok(vec![]));
    assert_eq!(catalog.build_count(), 1);
    assert_eq!(catalog.deploy_count(), 1);
    assert_eq!(catalog.asset_count(), 6);
}

#[test]
fn detection_in_memory_agrees_with_the_decisions_taken_one_by_one() {
    let mut around = Surroundings::new();
    attempt(&mut around, Branch::Canary, PAGE, Some(b"h1"), &subscribers()).unwrap();
    attempt(&mut around, Branch::Stable, PAGE, Some(b"h1"), &subscribers()).unwrap();
    let mut catalog = Catalog::new();
    let contents = fetched();
    let mut posted = Vec::new();
    for branch in [Branch::Canary, Branch::Stable] {
        let messages = detect_changes_on_branch(
            &mut catalog,
            branch,
            &subscribers(),
            PAGE,
            Some(b"h1"),
            &contents,
            NOW,
        )
        .unwrap();
        for (index, message) in messages {
            posted.push((subscribers()[index].discord_webhook_url.clone(), message));
        }
    }
    assert_eq!(posted, around.posted);
    assert_eq!(catalog.build_count(), around.catalog.build_count());
    assert_eq!(catalog.deploy_count(), around.catalog.deploy_count());
    assert_eq!(catalog.asset_count(), around.catalog.asset_count());
    assert_eq!(catalog.tie_count(), around.catalog.tie_count());
    for branch in [Branch::Canary, Branch::Stable, Branch::Ptb] {
        assert_eq!(
            catalog.last_known_build_hash_on_branch(branch),
            around.catalog.last_known_build_hash_on_branch(branch)
        );
    }
}

#[test]
fn detection_in_memory_fails_as_the_decisions_do() {
    let subscriptions = subscribers();
    let mut catalog = Catalog::new();
    let nothing = AssetCache::new();
    assert_eq!(
        detect_changes_on_branch(
            &mut catalog,
            Branch::Canary,
            &subscriptions,
            PAGE,
            Some(b"h1"),
            &nothing,
            NOW
        ),
        Err(DetectError::NotFetched)
    );
    assert_eq!(catalog.deploy_count(), 0);
    assert_eq!(
        detect_changes_on_branch(
            &mut catalog,
            Branch::Development,
            &subscriptions,
            PAGE,
            Some(b"h1"),
            &nothing,
            NOW
        ),
        Err(DetectError::NoFrontend)
    );

    let mut only_entrypoint = AssetCache::new();
    let entrypoint = FeAsset::new("cccccccccccccccccccc", FeAssetType::Js);
    only_entrypoint.store_raw_content(&entrypoint, ENTRYPOINT.to_vec());
    assert_eq!(
        detect_changes_on_branch(
            &mut catalog,
            Branch::Canary,
            &subscriptions,
            PAGE,
            Some(b"h1"),
            &only_entrypoint,
            NOW
        ),
        Err(DetectError::NotFetched)
    );
    assert_eq!(catalog.deploy_count(), 1);
    assert_eq!(catalog.asset_count(), 0);

    let mut catalog = Catalog::new();
    assert_eq!(
        detect_changes_on_branch(
            &mut catalog,
            Branch::Canary,
            &subscriptions,
            PAGE,
            Some(b"h1"),
            &fetched(),
            i64::MAX
        ),
        Err(DetectError::Unwritable)
    );
    assert_eq!(catalog.deploy_count(), 1);
    assert_eq!(catalog.asset_count(), 6);
    let nobody: Vec<Subscription> = Vec::new();
    let mut catalog = Catalog::new();
    assert_eq!(
        detect_changes_on_branch(
            &mut catalog,
            Branch::Canary,
            &nobody,
            PAGE,
            Some(b"h1"),
            &fetched(),
            i64::MAX
        ),
        Ok(vec![])
    );
}

#[test]
fn numbers_beyond_the_columns_of_the_catalog_are_refused() {
    let subscriptions = subscribers();
    let mut big_number = AssetCache::new();
    let entrypoint = FeAsset::new("cccccccccccccccccccc", FeAssetType::Js);
    let loader = FeAsset::new("dddddddddddddddddddd", FeAssetType::Js);
    big_number
        .store_raw_content(&entrypoint, b"Build Number: 2147483648, Version Hash: ab".to_vec());
    let mut catalog = Catalog::new();
    assert_eq!(
        detect_changes_on_branch(
            &mut catalog,
            Branch::Canary,
            &subscriptions,
            PAGE,
            Some(b"h1"),
            &big_number,
            NOW
        ),
        Err(DetectError::Persistence(PersistenceError::BuildNumberOutOfRange))
    );
    assert_eq!(catalog.deploy_count(), 0);

    let mut big_chunk = AssetCache::new();
    big_chunk.store_raw_content(&entrypoint, ENTRYPOINT.to_vec());
    big_chunk
        .store_raw_content(&loader, b"{2147483648:\"0123456789abcdef0123\"}+\".js\"".to_vec());
    assert_eq!(
        detect_changes_on_branch(
            &mut catalog,
            Branch::Canary,
            &subscriptions,
            PAGE,
            Some(b"h1"),
            &big_chunk,
            NOW
        ),
        Err(DetectError::Persistence(PersistenceError::ChunkIdOutOfRange))
    );
    assert_eq!(catalog.deploy_count(), 1);
    assert_eq!(catalog.asset_count(), 0);
}

#[test]
fn a_cycle_ends_with_its_first_failure() {
    assert_eq!(first_failure(&vec![]), None);
    assert_eq!(first_failure(&vec![false, false, false]), None);
    assert_eq!(first_failure(&vec![false, true, false, true]), Some(1));
    assert_eq!(first_failure(&vec![true]), Some(0));
    assert_eq!(first_failure(&vec![false, false, true]), Some(2));
}
