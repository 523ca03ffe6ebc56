use havoc::asset::{FeAsset, FeAssetType};
use havoc::assoc::StrMap;
use havoc::cache::{AssetCache, ContentStep};

fn js(name: &str) -> FeAsset {
    FeAsset::new(name, FeAssetType::Js)
}

fn ready(step: ContentStep<'_>) -> Vec<u8> {
    match step {
        ContentStep::Ready(content) => content.clone(),
        other => panic!("content is not at hand: {:?}", other),
    }
}

#[test]
fn raw_content_is_the_same_on_every_call_after_the_first() {
    let mut cache = AssetCache::new();
    let asset = js("a");
    assert_eq!(cache.raw_content(&asset), None);
    cache.store_raw_content(&asset, b"first".to_vec());
    assert_eq!(cache.raw_content(&asset), Some(&b"first".to_vec()));
    cache.store_raw_content(&asset, b"second".to_vec());
    assert_eq!(cache.raw_content(&asset), Some(&b"first".to_vec()));
    cache.store_preprocessed_content(&asset, b"other".to_vec());
    assert_eq!(cache.raw_content(&asset), Some(&b"first".to_vec()));
    assert_eq!(cache.raw_content(&js("b")), None);
}

#[test]
fn the_cache_is_keyed_by_the_name_of_the_asset() {
    let mut cache = AssetCache::new();
    cache.store_raw_content(&js("a"), b"script".to_vec());
    assert_eq!(cache.raw_content(&FeAsset::new("a", FeAssetType::Css)), Some(&b"script".to_vec()));
}

#[test]
fn without_a_preprocessor_the_preprocessed_content_is_the_raw_content() {
    let mut cache = AssetCache::new();
    let asset = js("a");
    assert!(matches!(cache.preprocessed_content(&asset), ContentStep::Fetch));
    cache.store_raw_content(&asset, b"raw".to_vec());
    assert_eq!(ready(cache.preprocessed_content(&asset)), b"raw".to_vec());
    assert_eq!(ready(cache.preprocessed_content(&asset)), b"raw".to_vec());
    assert!(!cache.has_preprocessor(FeAssetType::Js));
}

#[test]
fn with_a_preprocessor_the_preprocessed_content_is_what_it_makes_of_the_raw_content() {
    let preprocessor = |raw: &[u8]| raw.iter().rev().cloned().collect::<Vec<u8>>();
    let mut cache = AssetCache::new();
    cache.set_preprocessor(FeAssetType::Js);
    assert!(cache.has_preprocessor(FeAssetType::Js));
    assert!(!cache.has_preprocessor(FeAssetType::Css));
    let asset = js("a");
    assert!(matches!(cache.preprocessed_content(&asset), ContentStep::Fetch));
    cache.store_raw_content(&asset, b"abc".to_vec());
    let made = match cache.preprocessed_content(&asset) {
        ContentStep::Preprocess(raw) => preprocessor(raw),
        other => panic!("nothing to preprocess: {:?}", other),
    };
    cache.store_preprocessed_content(&asset, made);
    assert_eq!(ready(cache.preprocessed_content(&asset)), b"cba".to_vec());
    cache.store_preprocessed_content(&asset, b"zzz".to_vec());
    assert_eq!(ready(cache.preprocessed_content(&asset)), b"cba".to_vec());
    assert_eq!(cache.raw_content(&asset), Some(&b"abc".to_vec()));
    let style = FeAsset::new("s", FeAssetType::Css);
    cache.store_raw_content(&style, b"css".to_vec());
    assert_eq!(ready(cache.preprocessed_content(&style)), b"css".to_vec());
}

#[test]
fn string_maps_keep_entries_in_the_order_of_their_keys() {
    let mut map: StrMap<Vec<u8>> = StrMap::new();
    assert_eq!(map.len(), 0);
    map.insert("b".to_owned(), vec![1]);
    map.insert("a".to_owned(), vec![2]);
    map.insert("b".to_owned(), vec![3]);
    assert_eq!(map.len(), 2);
    assert_eq!(map.get("b"), Some(&vec![3]));
    assert_eq!(map.get("a"), Some(&vec![2]));
    assert_eq!(map.get("c"), None);
    assert_eq!(map.entry(0), (&"b".to_owned(), &vec![3]));
    assert_eq!(map.entry(1), (&"a".to_owned(), &vec![2]));
    assert!(map.contains_key("a"));
    assert!(!map.contains_key(""));
}
