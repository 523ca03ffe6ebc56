//! One attempt to detect a new build on a branch, as a sequence of
//! decisions. Each decision takes what the surroundings found out and says
//! what they are to do next: fetch, ask the catalog, write to it, publish.

use vstd::prelude::*;

use vstd::slice::slice_to_vec;

use crate::asset::{root_script, FeAsset, RootScript};
use crate::branch::Branch;
use crate::cache::AssetCache;
use crate::catalog::{
    asset_rows, catalog_rows, chunk_ids_fit, deploy_record, AssetRow, DeployRecord,
    PersistenceError,
};
use crate::config::{subscribers, subscriptions_for, Subscription};
use crate::manifest::{BuildSpec, FeBuild, FeManifest};
use crate::scrape::{
    branch_page_url, build_information_script, build_of, chunk_loader_assets, chunk_loader_script,
    extract_assets_from_chunk_loader, header_bytes, manifest_of, scrape_fe_build,
    scrape_fe_manifest, ScrapeError, ScrapeFailure, BRANCH_PAGE_PATH, MISSING_BUILD_SCRIPT,
};
use crate::store::{Catalog, CatalogSpec};
use crate::webhook::{message_at, post_build_to_webhook, MessageSpec, WebhookMessage};

verus! {

/// What the surroundings found out.
#[derive(Debug, Clone, PartialEq, Eq)]
pub enum Event {
    /// The attempt begins.
    Begin,
    /// The entry page of the branch answered with this text, and with this
    /// value of the build identifier header, if any.
    BranchPage { content: String, build_id: Option<Vec<u8>> },
    /// The catalog told the hash last known on the branch.
    LastKnownHash(Option<String>),
    /// The asset asked for has this content.
    Content(Vec<u8>),
    /// The catalog told whether it holds the build.
    Catalogued(bool),
    /// What was asked for is done.
    Done,
}

/// What the surroundings are to do next.
#[derive(Debug, Clone)]
pub enum Action {
    /// Fetch the entry page at this address.
    FetchBranchPage { url: String },
    /// Ask the catalog for the hash last known on the branch.
    ReadLastKnownHash { branch: Branch },
    /// Fetch the content of the asset, or take it from the cache.
    FetchContent { asset: FeAsset },
    /// Ask the catalog whether it holds the build of this hash.
    ReadCatalogued { hash: String },
    /// Insert the build unless the catalog holds it, and record its deploy,
    /// in one transaction.
    RecordDeploy { record: DeployRecord },
    /// Insert each row unless the catalog holds its name, and tie it to the
    /// build of this hash, in one transaction.
    CatalogAssets { hash: String, rows: Vec<AssetRow> },
    /// Tell every subscriber of the branch of the build.
    Publish { build: FeBuild },
    /// Nothing is left to do.
    Finish,
}

/// How far an attempt has come.
#[derive(Debug, Clone)]
pub enum Attempt {
    /// Nothing was done yet.
    Idle { branch: Branch },
    /// The entry page is being fetched.
    AwaitingBranchPage { branch: Branch },
    /// The catalog is being asked for the hash last known on the branch.
    AwaitingLastKnownHash { manifest: FeManifest },
    /// The script that holds the build information is being fetched.
    AwaitingBuildScript { manifest: FeManifest },
    /// The catalog is being asked whether it holds the build.
    AwaitingCatalogued { build: FeBuild },
    /// The deploy is being recorded.
    AwaitingRecord { build: FeBuild, catalogued_already: bool },
    /// The chunk loader is being fetched.
    AwaitingChunkLoader { build: FeBuild },
    /// The assets are being catalogued.
    AwaitingCatalog { build: FeBuild },
    /// The subscribers are being told.
    AwaitingPublish,
    /// The attempt is over.
    Finished,
}

/// Why an attempt failed.
#[derive(Debug, Clone, PartialEq, Eq)]
pub enum DetectError {
    /// A scrape failed.
    Scrape(ScrapeError),
    /// The branch serves no frontend.
    NoFrontend,
    /// The catalog cannot take what the attempt found.
    Persistence(PersistenceError),
    /// The event answers no question that the attempt has asked.
    UnexpectedEvent,
    /// The content of an asset is needed and was not fetched.
    NotFetched,
    /// The instant of the detection cannot be written.
    Unwritable,
}

/// The bytes of a header value, if there is one.
pub open spec fn owned_header_bytes(value: Option<Vec<u8>>) -> Option<Seq<u8>> {
    match value {
        Some(bytes) => Some(bytes@),
        None => None,
    }
}

/// Whether the hash last known on a branch is that of the manifest, so that
/// there is no new deploy to record.
pub open spec fn is_stale(last_known: Option<String>, manifest: FeManifest) -> bool {
    match last_known {
        Some(hash) => hash@ == manifest.hash@,
        None => false,
    }
}

/// Whether `result` is what the decision on `event` in the state `attempt`
/// comes to.
pub open spec fn decision(
    attempt: Attempt,
    event: Event,
    result: Result<(Attempt, Action), DetectError>,
) -> bool {
    match (attempt, event) {
        (Attempt::Idle { branch }, Event::Begin) => {
            if branch is Development {
                result matches Err(DetectError::NoFrontend)
            } else {
                result matches Ok(
                    (Attempt::AwaitingBranchPage { branch: awaited }, Action::FetchBranchPage { url }),
                ) && awaited == branch && url@ == branch.origin() + BRANCH_PAGE_PATH@
            }
        },
        (Attempt::AwaitingBranchPage { branch }, Event::BranchPage { content, build_id }) => {
            match manifest_of(branch, content@, owned_header_bytes(build_id)) {
                Ok(spec) => result matches Ok(
                    (
                        Attempt::AwaitingLastKnownHash { manifest },
                        Action::ReadLastKnownHash { branch: asked },
                    ),
                ) && manifest@ == spec && asked == branch,
                Err(failure) => result matches Err(DetectError::Scrape(error))
                    && error.is_failure(failure),
            }
        },
        (Attempt::AwaitingLastKnownHash { manifest }, Event::LastKnownHash(last_known)) => {
            if is_stale(last_known, manifest) {
                result matches Ok((Attempt::Finished, Action::Finish))
            } else {
                match root_script(manifest@.assets, RootScript::Entrypoint) {
                    Some(script) => result matches Ok(
                        (Attempt::AwaitingBuildScript { manifest: kept }, Action::FetchContent { asset }),
                    ) && kept@ == manifest@ && asset@ == script,
                    None => result matches Err(
                        DetectError::Scrape(ScrapeError::MissingBranchPageAssets(why)),
                    ) && why@ == MISSING_BUILD_SCRIPT@,
                }
            }
        },
        (Attempt::AwaitingBuildScript { manifest }, Event::Content(content)) => {
            match build_of(manifest@, content@) {
                Ok(spec) => result matches Ok(
                    (Attempt::AwaitingCatalogued { build }, Action::ReadCatalogued { hash }),
                ) && build@ == spec && hash@ == manifest@.hash,
                Err(failure) => result matches Err(DetectError::Scrape(error))
                    && error.is_failure(failure),
            }
        },
        (Attempt::AwaitingCatalogued { build }, Event::Catalogued(catalogued)) => {
            if build.number > i32::MAX {
                result matches Err(
                    DetectError::Persistence(PersistenceError::BuildNumberOutOfRange),
                )
            } else {
                result matches Ok(
                    (
                        Attempt::AwaitingRecord { build: kept, catalogued_already },
                        Action::RecordDeploy { record },
                    ),
                ) && kept@ == build@ && catalogued_already == catalogued && record.build_id@
                    == build@.manifest.hash && record.build_number == build.number
                    && record.branch@ == build@.manifest.branch.name()
            }
        },
        (Attempt::AwaitingRecord { build, catalogued_already }, Event::Done) => {
            if catalogued_already {
                result matches Ok((Attempt::AwaitingPublish, Action::Publish { build: told }))
                    && told@ == build@
            } else {
                match root_script(build@.manifest.assets, RootScript::ChunkLoader) {
                    Some(script) => result matches Ok(
                        (Attempt::AwaitingChunkLoader { build: kept }, Action::FetchContent { asset }),
                    ) && kept@ == build@ && asset@ == script,
                    None => result matches Err(
                        DetectError::Scrape(ScrapeError::MissingBranchPageAssets(why)),
                    ) && why@ == "chunk loader"@,
                }
            }
        },
        (Attempt::AwaitingChunkLoader { build }, Event::Content(content)) => {
            match chunk_loader_assets(content@) {
                Ok(chunks) => if chunk_ids_fit(chunks) {
                    result matches Ok(
                        (Attempt::AwaitingCatalog { build: kept }, Action::CatalogAssets { hash, rows }),
                    ) && kept@ == build@ && hash@ == build@.manifest.hash && rows.deep_view()
                        == catalog_rows(build@, chunks)
                } else {
                    result matches Err(
                        DetectError::Persistence(PersistenceError::ChunkIdOutOfRange),
                    )
                },
                Err(failure) => result matches Err(DetectError::Scrape(error))
                    && error.is_failure(failure),
            }
        },
        (Attempt::AwaitingCatalog { build }, Event::Done) => {
            result matches Ok((Attempt::AwaitingPublish, Action::Publish { build: told })) && told@
                == build@
        },
        (Attempt::AwaitingPublish, Event::Done) => {
            result matches Ok((Attempt::Finished, Action::Finish))
        },
        _ => result matches Err(DetectError::UnexpectedEvent),
    }
}

/// Begins an attempt on a branch.
pub fn begin(branch: Branch) -> (r: Attempt)
    ensures
        r == (Attempt::Idle { branch }),
{
    Attempt::Idle { branch }
}

/// Decides what follows `event` in the state `attempt`: the state after it
/// and what the surroundings are to do next, or why the attempt fails.
///
/// An attempt fetches the entry page and makes the manifest of it. Where the
/// hash of the manifest is the one last known on the branch, the attempt is
/// over. Else it fetches the script that holds the build information, makes
/// the build, asks whether the catalog holds it, records the deploy,
/// catalogs the assets unless the catalog held the build, and at last has
/// the subscribers told.
pub fn step(attempt: Attempt, event: Event) -> (r: Result<(Attempt, Action), DetectError>)
    ensures
        decision(attempt, event, r),
{
    match (attempt, event) {
        (Attempt::Idle { branch }, Event::Begin) => {
            if !branch.has_frontend() {
                return Err(DetectError::NoFrontend);
            }
            let url = branch_page_url(branch);
            Ok((Attempt::AwaitingBranchPage { branch }, Action::FetchBranchPage { url }))
        },
        (Attempt::AwaitingBranchPage { branch }, Event::BranchPage { content, build_id }) => {
            let scraped = match &build_id {
                Some(bytes) => scrape_fe_manifest(branch, content.as_str(), Some(bytes.as_slice())),
                None => scrape_fe_manifest(branch, content.as_str(), None),
            };
            match scraped {
                Ok(manifest) => Ok(
                    (
                        Attempt::AwaitingLastKnownHash { manifest },
                        Action::ReadLastKnownHash { branch },
                    ),
                ),
                Err(error) => Err(DetectError::Scrape(error)),
            }
        },
        (Attempt::AwaitingLastKnownHash { manifest }, Event::LastKnownHash(last_known)) => {
            let stale = match &last_known {
                Some(hash) => *hash == manifest.hash,
                None => false,
            };
            if stale {
                return Ok((Attempt::Finished, Action::Finish));
            }
            match build_information_script(&manifest) {
                Ok(asset) => Ok(
                    (Attempt::AwaitingBuildScript { manifest }, Action::FetchContent { asset }),
                ),
                Err(error) => Err(DetectError::Scrape(error)),
            }
        },
        (Attempt::AwaitingBuildScript { manifest }, Event::Content(content)) => {
            let hash = manifest.hash.clone();
            match scrape_fe_build(manifest, content.as_slice()) {
                Ok(build) => Ok(
                    (Attempt::AwaitingCatalogued { build }, Action::ReadCatalogued { hash }),
                ),
                Err(error) => Err(DetectError::Scrape(error)),
            }
        },
        (Attempt::AwaitingCatalogued { build }, Event::Catalogued(catalogued_already)) => {
            let record = match deploy_record(&build, build.manifest.branch) {
                Ok(record) => record,
                Err(error) => {
                    return Err(DetectError::Persistence(error));
                },
            };
            Ok(
                (
                    Attempt::AwaitingRecord { build, catalogued_already },
                    Action::RecordDeploy { record },
                ),
            )
        },
        (Attempt::AwaitingRecord { build, catalogued_already }, Event::Done) => {
            if catalogued_already {
                return Ok((Attempt::AwaitingPublish, Action::Publish { build }));
            }
            match chunk_loader_script(&build.manifest) {
                Ok(asset) => Ok(
                    (Attempt::AwaitingChunkLoader { build }, Action::FetchContent { asset }),
                ),
                Err(error) => Err(DetectError::Scrape(error)),
            }
        },
        (Attempt::AwaitingChunkLoader { build }, Event::Content(content)) => {
            let chunks = match extract_assets_from_chunk_loader(content.as_slice()) {
                Ok(chunks) => chunks,
                Err(error) => {
                    return Err(DetectError::Scrape(error));
                },
            };
            let rows = match asset_rows(&build, &chunks) {
                Ok(rows) => rows,
                Err(error) => {
                    return Err(DetectError::Persistence(error));
                },
            };
            let hash = build.manifest.hash.clone();
            Ok((Attempt::AwaitingCatalog { build }, Action::CatalogAssets { hash, rows }))
        },
        (Attempt::AwaitingCatalog { build }, Event::Done) => {
            Ok((Attempt::AwaitingPublish, Action::Publish { build }))
        },
        (Attempt::AwaitingPublish, Event::Done) => Ok((Attempt::Finished, Action::Finish)),
        _ => Err(DetectError::UnexpectedEvent),
    }
}

/// An attempt that finds the hash last known on its branch to be that of
/// the page is over at once: it asks for nothing to be written and for
/// nobody to be told.
pub proof fn stale_attempt_is_over(
    manifest: FeManifest,
    last_known: Option<String>,
    result: Result<(Attempt, Action), DetectError>,
)
    requires
        is_stale(last_known, manifest),
        decision(
            Attempt::AwaitingLastKnownHash { manifest },
            Event::LastKnownHash(last_known),
            result,
        ),
    ensures
        result matches Ok((Attempt::Finished, Action::Finish)),
{
}

/// The subscribers are told of a build only once its deploy is recorded:
/// right after that where the catalog held the build already, and after the
/// assets are catalogued where it did not. Assets are catalogued only for a
/// build that the catalog did not hold.
pub proof fn publish_follows_record(
    attempt: Attempt,
    event: Event,
    result: Result<(Attempt, Action), DetectError>,
)
    requires
        decision(attempt, event, result),
    ensures
        result matches Ok((_, Action::Publish { .. })) ==> event is Done && (
        attempt matches Attempt::AwaitingRecord { catalogued_already: true, .. }
            || attempt is AwaitingCatalog),
        result matches Ok((Attempt::AwaitingChunkLoader { .. }, _)) ==> (
        attempt matches Attempt::AwaitingRecord { catalogued_already: false, .. }),
        result matches Ok((_, Action::CatalogAssets { .. })) ==> attempt is AwaitingChunkLoader,
{
}

/// Why an attempt fails, as mathematics.
pub enum DetectFailure {
    Scrape(ScrapeFailure),
    NoFrontend,
    Persistence(PersistenceError),
    NotFetched,
    Unwritable,
}

/// What an attempt comes to: the catalog after it, and the messages that
/// it has posted, each with the index of the subscription that it went to,
/// or why it failed.
pub struct Detected {
    pub catalog: CatalogSpec,
    pub outcome: Result<Seq<(usize, MessageSpec)>, DetectFailure>,
}

/// The messages that tell the subscribers `indices[..upto]` of a build.
pub open spec fn messages_to(indices: Seq<usize>, upto: nat, message: MessageSpec) -> Seq<
    (usize, MessageSpec),
>
    decreases upto,
{
    if upto == 0 || upto > indices.len() {
        Seq::empty()
    } else {
        messages_to(indices, (upto - 1) as nat, message).push((indices[upto - 1], message))
    }
}

/// What telling the subscribers of a branch of a build comes to. Where
/// nobody subscribes to the branch nothing is posted; else the instant of
/// the detection must be writable.
pub open spec fn published(
    catalog: CatalogSpec,
    build: BuildSpec,
    subscriptions: Seq<Subscription>,
    unix_millis: int,
) -> Detected {
    let indices = subscribers(subscriptions, subscriptions.len(), build.manifest.branch);
    if indices.len() == 0 {
        Detected { catalog, outcome: Ok(Seq::empty()) }
    } else {
        match message_at(build, unix_millis) {
            Some(message) => Detected {
                catalog,
                outcome: Ok(messages_to(indices, indices.len(), message)),
            },
            None => Detected { catalog, outcome: Err(DetectFailure::Unwritable) },
        }
    }
}

/// What the recording of a build that was found to be new comes to: its
/// deploy is recorded; its assets are catalogued unless the catalog held
/// the build; then the subscribers are told. A failure after the deploy is
/// recorded leaves the deploy in the catalog.
pub open spec fn recorded(
    catalog: CatalogSpec,
    build: BuildSpec,
    subscriptions: Seq<Subscription>,
    raw: Map<Seq<char>, Seq<u8>>,
    unix_millis: int,
) -> Detected {
    let hash = build.manifest.hash;
    if build.number > i32::MAX {
        Detected {
            catalog,
            outcome: Err(DetectFailure::Persistence(PersistenceError::BuildNumberOutOfRange)),
        }
    } else {
        let with_deploy = catalog.record_deploy(hash, build.number as i32, build.manifest.branch);
        if catalog.is_catalogued(hash) {
            published(with_deploy, build, subscriptions, unix_millis)
        } else {
            match root_script(build.manifest.assets, RootScript::ChunkLoader) {
                None => Detected {
                    catalog: with_deploy,
                    outcome: Err(
                        DetectFailure::Scrape(
                            ScrapeFailure::MissingBranchPageAssets("chunk loader"@),
                        ),
                    ),
                },
                Some(loader) => if !raw.dom().contains(loader.name) {
                    Detected { catalog: with_deploy, outcome: Err(DetectFailure::NotFetched) }
                } else {
                    match chunk_loader_assets(raw[loader.name]) {
                        Err(failure) => Detected {
                            catalog: with_deploy,
                            outcome: Err(DetectFailure::Scrape(failure)),
                        },
                        Ok(chunks) => if !chunk_ids_fit(chunks) {
                            Detected {
                                catalog: with_deploy,
                                outcome: Err(
                                    DetectFailure::Persistence(
                                        PersistenceError::ChunkIdOutOfRange,
                                    ),
                                ),
                            }
                        } else {
                            published(
                                with_deploy.catalog_assets(build, chunks),
                                build,
                                subscriptions,
                                unix_millis,
                            )
                        },
                    }
                },
            }
        }
    }
}

/// What an attempt on a branch comes to, given the catalog before it, the
/// subscriptions, what the entry page answered, the content of each asset
/// as it is served, by name, and the instant of the attempt.
///
/// Where the hash of the page is the one last known on the branch, the
/// catalog stays as it is and nobody is told.
pub open spec fn detection(
    catalog: CatalogSpec,
    branch: Branch,
    subscriptions: Seq<Subscription>,
    page: Seq<char>,
    build_id: Option<Seq<u8>>,
    raw: Map<Seq<char>, Seq<u8>>,
    unix_millis: int,
) -> Detected {
    if branch is Development {
        Detected { catalog, outcome: Err(DetectFailure::NoFrontend) }
    } else {
        match manifest_of(branch, page, build_id) {
            Err(failure) => Detected { catalog, outcome: Err(DetectFailure::Scrape(failure)) },
            Ok(manifest) => if catalog.last_known_hash(branch) == Some(manifest.hash) {
                Detected { catalog, outcome: Ok(Seq::empty()) }
            } else {
                match root_script(manifest.assets, RootScript::Entrypoint) {
                    None => Detected {
                        catalog,
                        outcome: Err(
                            DetectFailure::Scrape(
                                ScrapeFailure::MissingBranchPageAssets(MISSING_BUILD_SCRIPT@),
                            ),
                        ),
                    },
                    Some(script) => if !raw.dom().contains(script.name) {
                        Detected { catalog, outcome: Err(DetectFailure::NotFetched) }
                    } else {
                        match build_of(manifest, raw[script.name]) {
                            Err(failure) => Detected {
                                catalog,
                                outcome: Err(DetectFailure::Scrape(failure)),
                            },
                            Ok(build) => recorded(catalog, build, subscriptions, raw, unix_millis),
                        }
                    },
                }
            },
        }
    }
}

impl DetectError {
    /// Whether the error is the failure `failure`.
    pub open spec fn is_failure(self, failure: DetectFailure) -> bool {
        match (self, failure) {
            (DetectError::Scrape(error), DetectFailure::Scrape(scrape)) => error.is_failure(scrape),
            (DetectError::NoFrontend, DetectFailure::NoFrontend) => true,
            (DetectError::Persistence(error), DetectFailure::Persistence(refusal)) => error
                == refusal,
            (DetectError::NotFetched, DetectFailure::NotFetched) => true,
            (DetectError::Unwritable, DetectFailure::Unwritable) => true,
            _ => false,
        }
    }
}

/// Whether `result` is the outcome `outcome`.
pub open spec fn is_outcome(
    result: Result<Vec<(usize, WebhookMessage)>, DetectError>,
    outcome: Result<Seq<(usize, MessageSpec)>, DetectFailure>,
) -> bool {
    match (result, outcome) {
        (Ok(posted), Ok(messages)) => posted@.len() == messages.len() && forall|i: int|
            0 <= i < posted@.len() ==> ((#[trigger] posted@[i]).0, posted@[i].1@) == messages[i],
        (Err(error), Err(failure)) => error.is_failure(failure),
        _ => false,
    }
}

/// Has the subscribers of the branch of a build told of it: makes the
/// message for each, in the order of the subscriptions.
fn publish(build: &FeBuild, subscriptions: &Vec<Subscription>, unix_millis: i64) -> (r: Result<
    Vec<(usize, WebhookMessage)>,
    DetectError,
>)
    ensures
        forall|catalog: CatalogSpec|
            is_outcome(
                r,
                (#[trigger] published(catalog, build@, subscriptions@, unix_millis as int)).outcome,
            ),
{
    let indices = subscriptions_for(subscriptions, build.manifest.branch);
    let mut posted: Vec<(usize, WebhookMessage)> = Vec::new();
    let mut i: usize = 0;
    while i < indices.len()
        invariant
            i <= indices@.len(),
            indices@ == subscribers(subscriptions@, subscriptions@.len(), build@.manifest.branch),
            posted@.len() == i,
            i > 0 ==> message_at(build@, unix_millis as int) is Some,
            forall|k: int|
                0 <= k < i ==> ((#[trigger] posted@[k]).0, posted@[k].1@) == messages_to(
                    indices@,
                    i as nat,
                    message_at(build@, unix_millis as int)->0,
                )[k],
            messages_to(indices@, i as nat, message_at(build@, unix_millis as int)->0).len() == i,
        decreases indices@.len() - i,
    {
        match post_build_to_webhook(build, unix_millis) {
            Some(message) => {
                posted.push((indices[i], message));
            },
            None => {
                return Err(DetectError::Unwritable);
            },
        }
        i += 1;
    }
    Ok(posted)
}

/// Makes one attempt to detect a new build on a branch, against a catalog
/// held in memory and with everything that the attempt may fetch at hand:
/// what the entry page answered, and the content of the assets in
/// `contents`. It takes the decisions of [`step`] one after the other and
/// carries each out. It returns the messages to post, each with the index
/// of the subscription that it goes to.
pub fn detect_changes_on_branch(
    catalog: &mut Catalog,
    branch: Branch,
    subscriptions: &Vec<Subscription>,
    page: &str,
    build_id: Option<&[u8]>,
    contents: &AssetCache,
    unix_millis: i64,
) -> (r: Result<Vec<(usize, WebhookMessage)>, DetectError>)
    requires
        contents.wf(),
    ensures
        ({
            let expected = detection(
                old(catalog)@,
                branch,
                subscriptions@,
                page@,
                header_bytes(build_id),
                contents@.raw,
                unix_millis as int,
            );
            final(catalog)@ == expected.catalog && is_outcome(r, expected.outcome)
        }),
{
    let (state, action) = match step(begin(branch), Event::Begin) {
        Ok(next) => next,
        Err(error) => {
            return Err(error);
        },
    };
    let owned_id = match build_id {
        Some(bytes) => Some(slice_to_vec(bytes)),
        None => None,
    };
    let event = Event::BranchPage { content: page.to_owned(), build_id: owned_id };
    let (state, action) = match step(state, event) {
        Ok(next) => next,
        Err(error) => {
            return Err(error);
        },
    };
    let last_known = catalog.last_known_build_hash_on_branch(branch);
    let (state, action) = match step(state, Event::LastKnownHash(last_known)) {
        Ok(next) => next,
        Err(error) => {
            return Err(error);
        },
    };
    let script = match action {
        Action::FetchContent { asset } => asset,
        _ => {
            return Ok(Vec::new());
        },
    };
    let content = match contents.raw_content(&script) {
        Some(content) => slice_to_vec(content.as_slice()),
        None => {
            return Err(DetectError::NotFetched);
        },
    };
    let (state, action) = match step(state, Event::Content(content)) {
        Ok(next) => next,
        Err(error) => {
            return Err(error);
        },
    };
    let catalogued = match &action {
        Action::ReadCatalogued { hash } => catalog.build_hash_is_catalogued(hash.as_str()),
        _ => false,
    };
    let (state, action) = match step(state, Event::Catalogued(catalogued)) {
        Ok(next) => next,
        Err(error) => {
            return Err(error);
        },
    };
    let build = match state {
        Attempt::AwaitingRecord { build, .. } => build,
        _ => {
            return Err(DetectError::UnexpectedEvent);
        },
    };
    if let Err(error) = catalog.detected_build_change_on_branch(&build, branch) {
        return Err(DetectError::Persistence(error));
    }
    let state = Attempt::AwaitingRecord { build, catalogued_already: catalogued };
    let (state, action) = match step(state, Event::Done) {
        Ok(next) => next,
        Err(error) => {
            return Err(error);
        },
    };
    let build = match (state, action) {
        (Attempt::AwaitingPublish, Action::Publish { build }) => build,
        (Attempt::AwaitingChunkLoader { build }, Action::FetchContent { asset }) => {
            let content = match contents.raw_content(&asset) {
                Some(content) => slice_to_vec(content.as_slice()),
                None => {
                    return Err(DetectError::NotFetched);
                },
            };
            let state = Attempt::AwaitingChunkLoader { build };
            let (state, action) = match step(state, Event::Content(content)) {
                Ok(next) => next,
                Err(error) => {
                    return Err(error);
                },
            };
            match (state, action) {
                (Attempt::AwaitingCatalog { build }, Action::CatalogAssets { hash, rows }) => {
                    catalog.insert_rows(&hash, &rows);
                    build
                },
                _ => {
                    return Err(DetectError::UnexpectedEvent);
                },
            }
        },
        _ => {
            return Err(DetectError::UnexpectedEvent);
        },
    };
    publish(&build, subscriptions, unix_millis)
}

/// An attempt that finds the hash of the page to be the one last known on
/// its branch leaves the catalog as it is and posts nothing.
pub proof fn stale_detection_changes_nothing(
    catalog: CatalogSpec,
    branch: Branch,
    subscriptions: Seq<Subscription>,
    page: Seq<char>,
    build_id: Option<Seq<u8>>,
    raw: Map<Seq<char>, Seq<u8>>,
    unix_millis: int,
)
    requires
        manifest_of(branch, page, build_id) matches Ok(manifest) && catalog.last_known_hash(branch)
            == Some(manifest.hash),
    ensures
        detection(catalog, branch, subscriptions, page, build_id, raw, unix_millis).catalog
            == catalog,
        !(branch is Development) ==> detection(
            catalog,
            branch,
            subscriptions,
            page,
            build_id,
            raw,
            unix_millis,
        ).outcome == Ok::<Seq<(usize, MessageSpec)>, DetectFailure>(Seq::empty()),
{
}

/// An attempt that fails before a deploy is recorded leaves the catalog as
/// it is; any other attempt that finds a new build leaves the deploy of the
/// build as the last on its branch, and the build in the catalog with a
/// single row.
pub proof fn detection_records_the_deploy(
    catalog: CatalogSpec,
    branch: Branch,
    subscriptions: Seq<Subscription>,
    page: Seq<char>,
    build_id: Option<Seq<u8>>,
    raw: Map<Seq<char>, Seq<u8>>,
    unix_millis: int,
)
    requires
        catalog.wf(),
    ensures
        ({
            let after = detection(
                catalog,
                branch,
                subscriptions,
                page,
                build_id,
                raw,
                unix_millis,
            ).catalog;
            &&& after.wf()
            &&& after == catalog || (manifest_of(branch, page, build_id) matches Ok(manifest)
                && after.last_known_hash(branch) == Some(manifest.hash) && after.build_rows(
                manifest.hash,
            ) == 1 && after.build_deploys == catalog.build_deploys.push((manifest.hash, branch)))
        }),
{
    let after = detection(catalog, branch, subscriptions, page, build_id, raw, unix_millis).catalog;
    if after != catalog {
        let manifest = manifest_of(branch, page, build_id)->Ok_0;
        let script = root_script(manifest.assets, RootScript::Entrypoint)->0;
        let build = build_of(manifest, raw[script.name])->Ok_0;
        let hash = manifest.hash;
        let with_deploy = catalog.record_deploy(hash, build.number as i32, branch);
        crate::store::record_deploy_keeps_keys(catalog, hash, build.number as i32, branch);
        crate::store::rows_of_build(with_deploy.builds, hash);
        if after != with_deploy {
            let loader = root_script(manifest.assets, RootScript::ChunkLoader)->0;
            let chunks = chunk_loader_assets(raw[loader.name])->Ok_0;
            let rows = catalog_rows(build, chunks);
            crate::store::with_assets_keeps_keys(with_deploy, hash, rows, rows.len());
        }
    }
}

/// Tells how a cycle over the branches ends. A cycle makes its attempt on
/// every branch, whether an attempt before it failed or not; `failed` holds,
/// for each attempt in the order of the cycle, whether it failed. The cycle
/// ends with the failure of the first attempt that failed, whose index is
/// returned, or well where none did.
pub fn first_failure(failed: &Vec<bool>) -> (r: Option<usize>)
    ensures
        match r {
            Some(i) => i < failed@.len() && failed@[i as int] && forall|j: int|
                0 <= j < i ==> !failed@[j],
            None => forall|j: int| 0 <= j < failed@.len() ==> !failed@[j],
        },
{
    let mut i: usize = 0;
    while i < failed.len()
        invariant
            i <= failed@.len(),
            forall|j: int| 0 <= j < i ==> !failed@[j],
        decreases failed@.len() - i,
    {
        if failed[i] {
            return Some(i);
        }
        i += 1;
    }
    None
}

} // verus!
