use candle_core::{Device, Tensor};
use deepseek_ocr::transformer::cache::{CacheError, DynamicCache, KvChunk};

fn chunk(fill: f32, tokens: usize) -> KvChunk {
    let values = vec![fill; tokens.max(1)];
    let n = values.len();
    KvChunk {
        key: Tensor::from_vec(values.clone(), n, &Device::Cpu).unwrap(),
        value: Tensor::from_vec(values, n, &Device::Cpu).unwrap().affine(-1.0, 0.0).unwrap(),
    }
}

fn chunks(layers: usize, fill: f32, tokens: usize) -> Vec<KvChunk> {
    (0..layers).map(|l| chunk(fill + l as f32, tokens)).collect()
}

fn key(cache: &DynamicCache, layer: usize, j: usize) -> Vec<f32> {
    cache.chunk(layer, j).key.to_vec1::<f32>().unwrap()
}

#[test]
fn a_new_cache_is_empty() {
    let cache = DynamicCache::new(3);
    assert_eq!(cache.num_layers(), 3);
    assert_eq!(cache.seq_len(), None);
    assert_eq!(cache.len(), 0);
    assert_eq!(cache.num_chunks(), 0);
    assert!(!cache.is_guarded());
    for layer in 0..3 {
        assert!(cache.layer(layer).is_empty());
    }
}

#[test]
fn a_cache_without_layers_is_allowed() {
    let mut cache = DynamicCache::new(0);
    assert_eq!(cache.num_layers(), 0);
    cache.append(Vec::new(), 4).unwrap();
    assert_eq!(cache.seq_len(), Some(4));
}

#[test]
fn appending_adds_the_tokens_to_the_length() {
    let mut cache = DynamicCache::new(2);
    cache.append(chunks(2, 1.0, 5), 5).unwrap();
    assert_eq!(cache.seq_len(), Some(5));
    cache.append(chunks(2, 2.0, 1), 1).unwrap();
    assert_eq!(cache.seq_len(), Some(6));
    cache.append(chunks(2, 3.0, 0), 0).unwrap();
    assert_eq!(cache.seq_len(), Some(6));
    cache.append(chunks(2, 4.0, 3), 3).unwrap();
    assert_eq!(cache.len(), 9);
    assert_eq!(cache.num_chunks(), 4);
}

#[test]
fn appending_nothing_to_an_empty_cache_makes_its_length_zero() {
    let mut cache = DynamicCache::new(1);
    cache.append(chunks(1, 0.0, 0), 0).unwrap();
    assert_eq!(cache.seq_len(), Some(0));
    assert_eq!(cache.len(), 0);
}

#[test]
fn appending_keeps_what_was_stored_in_its_place() {
    let mut cache = DynamicCache::new(2);
    cache.append(chunks(2, 10.0, 2), 2).unwrap();
    cache.append(chunks(2, 20.0, 1), 1).unwrap();
    cache.append(chunks(2, 30.0, 1), 1).unwrap();
    assert_eq!(key(&cache, 0, 0), vec![10.0, 10.0]);
    assert_eq!(key(&cache, 1, 0), vec![11.0, 11.0]);
    assert_eq!(key(&cache, 0, 1), vec![20.0]);
    assert_eq!(key(&cache, 1, 1), vec![21.0]);
    assert_eq!(key(&cache, 0, 2), vec![30.0]);
    assert_eq!(key(&cache, 1, 2), vec![31.0]);
    assert_eq!(cache.chunk(1, 2).value.to_vec1::<f32>().unwrap(), vec![-31.0]);
    assert_eq!(cache.layer(0).len(), 3);
    assert_eq!(cache.layer(1).len(), 3);
}

#[test]
fn chunks_that_are_not_one_per_layer_are_refused() {
    let mut cache = DynamicCache::new(2);
    cache.append(chunks(2, 1.0, 2), 2).unwrap();
    assert_eq!(cache.append(chunks(1, 2.0, 1), 1), Err(CacheError::LayerCountMismatch));
    assert_eq!(cache.append(chunks(3, 2.0, 1), 1), Err(CacheError::LayerCountMismatch));
    assert_eq!(cache.seq_len(), Some(2));
    assert_eq!(cache.num_chunks(), 1);
    assert_eq!(cache.layer(0).len(), 1);
}

#[test]
fn a_length_beyond_a_machine_word_is_refused() {
    let mut cache = DynamicCache::new(1);
    cache.append(chunks(1, 1.0, 1), usize::MAX - 2).unwrap();
    assert_eq!(cache.append(chunks(1, 2.0, 1), 3), Err(CacheError::LengthOverflow));
    assert_eq!(cache.seq_len(), Some(usize::MAX - 2));
    assert_eq!(cache.num_chunks(), 1);
    cache.append(chunks(1, 2.0, 1), 2).unwrap();
    assert_eq!(cache.seq_len(), Some(usize::MAX));
}

#[test]
fn the_layer_count_is_checked_before_the_length() {
    let mut cache = DynamicCache::new(1);
    cache.append(chunks(1, 1.0, 1), usize::MAX).unwrap();
    assert_eq!(cache.append(chunks(2, 2.0, 1), 1), Err(CacheError::LayerCountMismatch));
}

#[test]
fn a_guard_holds_the_cache_and_gives_it_back() {
    let mut cache = DynamicCache::new(2);
    cache.append(chunks(2, 5.0, 2), 2).unwrap();
    let mut guard = cache.acquire_prompt_guard().ok().unwrap();
    assert!(guard.cache().is_guarded());
    assert_eq!(guard.cache().seq_len(), Some(2));
    guard.cache().append(chunks(2, 6.0, 1), 1).unwrap();
    let cache = guard.release();
    assert!(!cache.is_guarded());
    assert_eq!(cache.seq_len(), Some(3));
    assert_eq!(key(&cache, 0, 0), vec![5.0, 5.0]);
    assert_eq!(key(&cache, 1, 1), vec![7.0]);
    let again = cache.acquire_prompt_guard();
    assert!(again.is_ok());
}

#[test]
fn a_marked_cache_is_refused_a_guard_and_handed_back() {
    let mut guard = DynamicCache::new(1).acquire_prompt_guard().ok().unwrap();
    guard.cache().append(chunks(1, 1.0, 4), 4).unwrap();
    let marked = std::mem::replace(guard.cache(), DynamicCache::new(1));
    assert!(marked.is_guarded());
    let refused = marked.acquire_prompt_guard().err().unwrap();
    assert_eq!(refused.error, CacheError::AlreadyGuarded);
    assert!(refused.cache.is_guarded());
    assert_eq!(refused.cache.seq_len(), Some(4));
    assert_eq!(key(&refused.cache, 0, 0), vec![1.0; 4]);
    let fresh = guard.release();
    assert!(!fresh.is_guarded());
    assert_eq!(fresh.seq_len(), None);
}
