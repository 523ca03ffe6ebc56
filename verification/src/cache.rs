//! The cache of one detection attempt: the content of each asset as it was
//! fetched, and as the preprocessor of its kind made it.

use vstd::prelude::*;

use crate::asset::{AssetSpec, FeAsset, FeAssetType};
use crate::assoc::StrMap;

verus! {

/// The content of an asset.
pub type AssetContent = Vec<u8>;

/// What the cache holds, as mathematics. Both maps are keyed by the name of
/// the asset.
pub struct CacheSpec {
    /// The content of each asset as it was fetched.
    pub raw: Map<Seq<char>, Seq<u8>>,
    /// The kinds of asset that have a preprocessor.
    pub preprocessors: Set<FeAssetType>,
    /// The content of each asset as the preprocessor of its kind made it.
    pub preprocessed: Map<Seq<char>, Seq<u8>>,
}

impl CacheSpec {
    /// The cache after `content` was fetched for an asset: it is kept
    /// unless the cache holds content for the asset already.
    pub open spec fn with_raw(self, name: Seq<char>, content: Seq<u8>) -> CacheSpec {
        if self.raw.dom().contains(name) {
            self
        } else {
            CacheSpec { raw: self.raw.insert(name, content), ..self }
        }
    }

    /// The cache after a preprocessor made `content` for an asset: it is
    /// kept unless the cache holds preprocessed content for the asset
    /// already.
    pub open spec fn with_preprocessed(self, name: Seq<char>, content: Seq<u8>) -> CacheSpec {
        if self.preprocessed.dom().contains(name) {
            self
        } else {
            CacheSpec { preprocessed: self.preprocessed.insert(name, content), ..self }
        }
    }

    /// What is to be done to have the preprocessed content of an asset.
    pub open spec fn step(self, asset: AssetSpec) -> StepSpec {
        if self.preprocessed.dom().contains(asset.name) {
            StepSpec::Ready(self.preprocessed[asset.name])
        } else if !self.raw.dom().contains(asset.name) {
            StepSpec::Fetch
        } else if self.preprocessors.contains(asset.typ) {
            StepSpec::Preprocess(self.raw[asset.name])
        } else {
            StepSpec::Ready(self.raw[asset.name])
        }
    }
}

/// A step towards the preprocessed content of an asset, as mathematics.
pub enum StepSpec {
    /// The content is at hand.
    Ready(Seq<u8>),
    /// The asset is to be fetched, and its content stored as fetched.
    Fetch,
    /// The preprocessor of the asset's kind is to be run on this content,
    /// and what it makes stored as preprocessed.
    Preprocess(Seq<u8>),
}

/// A step towards the preprocessed content of an asset.
#[derive(Debug)]
pub enum ContentStep<'a> {
    /// The content is at hand.
    Ready(&'a AssetContent),
    /// The asset is to be fetched, and its content stored as fetched.
    Fetch,
    /// The preprocessor of the asset's kind is to be run on this content,
    /// and what it makes stored as preprocessed.
    Preprocess(&'a AssetContent),
}

impl<'a> View for ContentStep<'a> {
    type V = StepSpec;

    open spec fn view(&self) -> StepSpec {
        match *self {
            ContentStep::Ready(content) => StepSpec::Ready(content@),
            ContentStep::Fetch => StepSpec::Fetch,
            ContentStep::Preprocess(content) => StepSpec::Preprocess(content@),
        }
    }
}

/// Keeps the content of assets in memory, so that none is fetched or
/// preprocessed twice.
#[derive(Debug)]
pub struct AssetCache {
    raw_content: StrMap<AssetContent>,
    preprocessors: Vec<FeAssetType>,
    preprocessed_content: StrMap<AssetContent>,
}

impl View for AssetCache {
    type V = CacheSpec;

    closed spec fn view(&self) -> CacheSpec {
        CacheSpec {
            raw: self.raw_content.model(),
            preprocessors: self.preprocessors@.to_set(),
            preprocessed: self.preprocessed_content.model(),
        }
    }
}

impl AssetCache {
    /// The invariant of the cache: its maps are well formed.
    pub closed spec fn wf(&self) -> bool {
        self.raw_content.wf() && self.preprocessed_content.wf()
    }

    /// Creates an empty asset cache.
    pub fn new() -> (r: AssetCache)
        ensures
            r.wf(),
            r@.raw == Map::<Seq<char>, Seq<u8>>::empty(),
            r@.preprocessed == Map::<Seq<char>, Seq<u8>>::empty(),
            r@.preprocessors == Set::<FeAssetType>::empty(),
    {
        let r = AssetCache {
            raw_content: StrMap::new(),
            preprocessors: Vec::new(),
            preprocessed_content: StrMap::new(),
        };
        assert(r@.preprocessors =~= Set::<FeAssetType>::empty());
        r
    }

    /// Tells the cache that assets of the kind `typ` have a preprocessor.
    /// The preprocessor itself stays with whoever runs it.
    pub fn set_preprocessor(&mut self, typ: FeAssetType)
        requires
            old(self).wf(),
        ensures
            final(self).wf(),
            final(self)@ == (CacheSpec {
                preprocessors: old(self)@.preprocessors.insert(typ),
                ..old(self)@
            }),
    {
        self.preprocessors.push(typ);
        assert(self.preprocessors@ == old(self).preprocessors@.push(typ));
        assert(self@.preprocessors =~= old(self)@.preprocessors.insert(typ)) by {
            assert forall|t: FeAssetType|
                self.preprocessors@.to_set().contains(t) <==> old(
                    self,
                ).preprocessors@.to_set().insert(typ).contains(t) by {
                if self.preprocessors@.contains(t) {
                    let i = choose|i: int|
                        0 <= i < self.preprocessors@.len() && self.preprocessors@[i] == t;
                    if i < old(self).preprocessors@.len() {
                        assert(old(self).preprocessors@[i] == t);
                    }
                }
                if old(self).preprocessors@.contains(t) {
                    let i = choose|i: int|
                        0 <= i < old(self).preprocessors@.len() && old(self).preprocessors@[i] == t;
                    assert(self.preprocessors@[i] == t);
                }
                if t == typ {
                    assert(self.preprocessors@[old(self).preprocessors@.len() as int] == t);
                }
            }
        }
    }

    /// Whether assets of the kind `typ` have a preprocessor.
    pub fn has_preprocessor(&self, typ: FeAssetType) -> (r: bool)
        ensures
            r == self@.preprocessors.contains(typ),
    {
        let mut i: usize = 0;
        while i < self.preprocessors.len()
            invariant
                i <= self.preprocessors@.len(),
                forall|j: int| 0 <= j < i ==> self.preprocessors@[j] != typ,
            decreases self.preprocessors@.len() - i,
        {
            if self.preprocessors[i] == typ {
                assert(self.preprocessors@.contains(typ));
                return true;
            }
            i += 1;
        }
        false
    }

    /// Returns the content of an asset as it was fetched, if the cache
    /// holds it.
    pub fn raw_content(&self, asset: &FeAsset) -> (r: Option<&AssetContent>)
        requires
            self.wf(),
        ensures
            match r {
                Some(content) => self@.raw.dom().contains(asset@.name) && self@.raw[asset@.name]
                    == content@,
                None => !self@.raw.dom().contains(asset@.name),
            },
    {
        self.raw_content.get(asset.name.as_str())
    }

    /// Stores the content of an asset as it was fetched. Content that the
    /// cache holds for the asset stays as it is.
    pub fn store_raw_content(&mut self, asset: &FeAsset, content: AssetContent)
        requires
            old(self).wf(),
        ensures
            final(self).wf(),
            final(self)@ == old(self)@.with_raw(asset@.name, content@),
    {
        if !self.raw_content.contains_key(asset.name.as_str()) {
            self.raw_content.insert(asset.name.clone(), content);
        }
    }

    /// Tells what is to be done to have the preprocessed content of an
    /// asset. Preprocessed content that the cache holds is at hand; else
    /// the asset is to be fetched, unless the cache holds its content as
    /// fetched; that content is at hand where the kind of the asset has no
    /// preprocessor, and is to be preprocessed where it has one.
    pub fn preprocessed_content(&self, asset: &FeAsset) -> (r: ContentStep<'_>)
        requires
            self.wf(),
        ensures
            r@ == self@.step(asset@),
    {
        if let Some(content) = self.preprocessed_content.get(asset.name.as_str()) {
            return ContentStep::Ready(content);
        }
        match self.raw_content.get(asset.name.as_str()) {
            None => ContentStep::Fetch,
            Some(content) => if self.has_preprocessor(asset.typ) {
                ContentStep::Preprocess(content)
            } else {
                ContentStep::Ready(content)
            },
        }
    }

    /// Stores the content that a preprocessor made for an asset.
    /// Preprocessed content that the cache holds for the asset stays as it
    /// is.
    pub fn store_preprocessed_content(&mut self, asset: &FeAsset, content: AssetContent)
        requires
            old(self).wf(),
        ensures
            final(self).wf(),
            final(self)@ == old(self)@.with_preprocessed(asset@.name, content@),
    {
        if !self.preprocessed_content.contains_key(asset.name.as_str()) {
            self.preprocessed_content.insert(asset.name.clone(), content);
        }
    }
}

/// Once content is stored for an asset as fetched, the cache holds that
/// content whatever is stored for the asset later.
pub proof fn raw_content_is_stable(
    cache: CacheSpec,
    name: Seq<char>,
    first: Seq<u8>,
    later: Seq<u8>,
)
    ensures
        cache.with_raw(name, first).raw.dom().contains(name),
        cache.with_raw(name, first).with_raw(name, later) == cache.with_raw(name, first),
        cache.with_raw(name, first).with_preprocessed(name, later).raw == cache.with_raw(
            name,
            first,
        ).raw,
{
}

/// What the steps towards the preprocessed content of an asset end in,
/// where `fetched` answers a fetch and `preprocessor` does the
/// preprocessing: the cache and the content at hand.
pub open spec fn resolve(
    cache: CacheSpec,
    asset: AssetSpec,
    fetched: Seq<u8>,
    preprocessor: spec_fn(Seq<u8>) -> Seq<u8>,
) -> (CacheSpec, Seq<u8>) {
    match cache.step(asset) {
        StepSpec::Ready(content) => (cache, content),
        StepSpec::Fetch => {
            let stored = cache.with_raw(asset.name, fetched);
            match stored.step(asset) {
                StepSpec::Preprocess(raw) => {
                    let done = stored.with_preprocessed(asset.name, preprocessor(raw));
                    (done, done.preprocessed[asset.name])
                },
                _ => (stored, fetched),
            }
        },
        StepSpec::Preprocess(raw) => {
            let done = cache.with_preprocessed(asset.name, preprocessor(raw));
            (done, done.preprocessed[asset.name])
        },
    }
}

/// In a cache that holds no preprocessed content but what the preprocessor
/// made of the content as fetched, the preprocessed content of an asset is
/// what the preprocessor of its kind makes of its content as fetched, or
/// that content itself where the kind has no preprocessor; and it is at
/// hand, the same, ever after.
pub proof fn preprocessed_content_law(
    cache: CacheSpec,
    asset: AssetSpec,
    fetched: Seq<u8>,
    preprocessor: spec_fn(Seq<u8>) -> Seq<u8>,
)
    requires
        forall|name: Seq<char>| #[trigger]
            cache.preprocessed.dom().contains(name) ==> cache.raw.dom().contains(name)
                && cache.preprocessed[name] == preprocessor(cache.raw[name]),
        cache.preprocessed.dom().contains(asset.name) ==> cache.preprocessors.contains(asset.typ),
    ensures
        ({
            let (after, content) = resolve(cache, asset, fetched, preprocessor);
            &&& after.raw.dom().contains(asset.name)
            &&& after.raw[asset.name] == cache.with_raw(asset.name, fetched).raw[asset.name]
            &&& content == if cache.preprocessors.contains(asset.typ) {
                preprocessor(after.raw[asset.name])
            } else {
                after.raw[asset.name]
            }
            &&& after.step(asset) == StepSpec::Ready(content)
            &&& resolve(after, asset, fetched, preprocessor) == (after, content)
        }),
{
}

} // verus!
