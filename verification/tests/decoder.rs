use std::sync::Arc;

use candle_core::{DType, Device, Tensor};
use candle_nn::RmsNorm;
use deepseek_ocr::model_config::DeepseekV2Config;
use deepseek_ocr::transformer::cache::{CacheError, DynamicCache, KvChunk};
use deepseek_ocr::transformer::decoder::{DecoderLayers, LayerOutput, TransformerDecoder};
use deepseek_ocr::transformer::error::ModelError;
use deepseek_ocr::transformer::model::{DeepseekLanguageModel, DeepseekLanguageModelWeights};

/// Layers that add one to their input and hand back their input as key
/// and value.
struct AddOne;

impl DecoderLayers for AddOne {
    fn forward_layer(
        &self,
        _layer: usize,
        hidden_states: &Tensor,
        _attention_mask: Option<&Tensor>,
        _position_ids: Option<&Tensor>,
        _past: Option<&Vec<KvChunk>>,
        _prompt: bool,
        _flash_attention: bool,
    ) -> Result<LayerOutput, candle_core::Error> {
        Ok(LayerOutput {
            hidden_states: hidden_states.affine(1.0, 1.0)?,
            key: hidden_states.clone(),
            value: hidden_states.clone(),
            aux_loss: None,
        })
    }
}

fn config(layers: usize) -> Arc<DeepseekV2Config> {
    Arc::new(DeepseekV2Config {
        vocab_size: 3,
        hidden_size: 2,
        num_hidden_layers: layers,
        rms_norm_eps_bits: 1e-6f64.to_bits(),
        attn_implementation: None,
    })
}

fn decoder(layers: usize, flash: bool) -> TransformerDecoder<AddOne> {
    TransformerDecoder::new(config(layers), Arc::new(AddOne), flash)
}

fn embeds(batch: usize, seq: usize) -> Tensor {
    Tensor::zeros((batch, seq, 2), DType::F32, &Device::Cpu).unwrap()
}

fn values(t: &Tensor) -> Vec<f32> {
    t.flatten_all().unwrap().to_vec1::<f32>().unwrap()
}

#[test]
fn a_stack_knows_its_depth_and_kernel() {
    let d = decoder(3, true);
    assert_eq!(d.num_layers(), 3);
    assert!(d.flash_attention_enabled());
    assert!(!decoder(1, false).flash_attention_enabled());
    assert_eq!(decoder(0, false).num_layers(), 0);
}

#[test]
fn every_layer_of_the_stack_is_applied() {
    let d = decoder(3, false);
    let out = d.forward(&embeds(1, 2), None, None, None, false).unwrap();
    assert_eq!(out.hidden_states.dims(), &[1, 2, 2]);
    assert_eq!(values(&out.hidden_states), vec![3.0; 4]);
    assert!(out.aux_loss.is_none());
}

#[test]
fn a_stack_without_layers_hands_the_embeddings_back() {
    let d = decoder(0, false);
    let mut cache = DynamicCache::new(0);
    let out = d.forward(&embeds(2, 3), None, None, Some(&mut cache), true).unwrap();
    assert_eq!(values(&out.hidden_states), vec![0.0; 12]);
    assert_eq!(cache.seq_len(), Some(3));
}

#[test]
fn the_stack_stores_what_each_layer_was_given() {
    let d = decoder(2, false);
    let mut cache = DynamicCache::new(2);
    d.forward(&embeds(1, 2), None, None, Some(&mut cache), true).unwrap();
    assert_eq!(cache.seq_len(), Some(2));
    assert_eq!(values(&cache.chunk(0, 0).key), vec![0.0; 4]);
    assert_eq!(values(&cache.chunk(1, 0).key), vec![1.0; 4]);
    d.forward(&embeds(1, 1), None, None, Some(&mut cache), true).unwrap();
    assert_eq!(cache.seq_len(), Some(3));
    assert_eq!(values(&cache.chunk(1, 0).key), vec![1.0; 4]);
    assert_eq!(values(&cache.chunk(1, 1).value), vec![1.0; 2]);
}

#[test]
fn the_stack_finds_the_faults_of_a_call_in_order() {
    let d = decoder(2, false);
    let flat = Tensor::zeros((2, 2), DType::F32, &Device::Cpu).unwrap();
    let positions = Tensor::zeros((1, 3), DType::I64, &Device::Cpu).unwrap();
    let mut shallow = DynamicCache::new(1);
    assert!(matches!(
        d.forward(&flat, None, Some(&positions), None, true),
        Err(ModelError::CacheRequired)
    ));
    assert!(matches!(
        d.forward(&flat, None, Some(&positions), Some(&mut shallow), true),
        Err(ModelError::EmbeddingsRank(2))
    ));
    assert!(matches!(
        d.forward(&embeds(1, 2), None, Some(&positions), Some(&mut shallow), true),
        Err(ModelError::PositionShape)
    ));
    assert!(matches!(
        d.forward(&embeds(1, 3), None, Some(&positions), Some(&mut shallow), true),
        Err(ModelError::Cache(CacheError::LayerCountMismatch))
    ));
    assert_eq!(shallow.num_chunks(), 0);
    let mut full = DynamicCache::new(2);
    let chunk = || KvChunk { key: embeds(1, 1), value: embeds(1, 1) };
    full.append(vec![chunk(), chunk()], usize::MAX).unwrap();
    assert!(matches!(
        d.forward(&embeds(1, 3), None, Some(&positions), Some(&mut full), true),
        Err(ModelError::Cache(CacheError::LengthOverflow))
    ));
    assert!(d.forward(&embeds(1, 3), None, Some(&positions), Some(&mut full), false).is_ok());
    assert_eq!(full.seq_len(), Some(usize::MAX));
}

#[test]
fn a_call_is_checked_by_its_dimension_sizes() {
    let device = Device::Cpu;
    let weights = DeepseekLanguageModelWeights {
        transformer: AddOne,
        token_embedding: Tensor::ones((3, 2), DType::F32, &device).unwrap(),
        final_layernorm: RmsNorm::new(Tensor::ones(2, DType::F32, &device).unwrap(), 1e-6),
        lm_head: Tensor::ones((3, 2), DType::F32, &device).unwrap(),
    };
    let m = DeepseekLanguageModel::from_weights(config(2), weights, None);
    let cache = DynamicCache::new(2);
    let ids = vec![2, 5];
    let embeds = vec![2, 5, 2];
    assert!(m.check_call(Some(&ids), None, None, None, false).is_ok());
    assert!(m.check_call(None, Some(&embeds), None, Some(&cache), true).is_ok());
    assert!(m.check_call(Some(&ids), None, Some(&vec![2, 5]), Some(&cache), false).is_ok());
    assert!(matches!(
        m.check_call(Some(&ids), Some(&embeds), None, None, true),
        Err(ModelError::AmbiguousInput)
    ));
    assert!(matches!(
        m.check_call(None, None, None, Some(&cache), true),
        Err(ModelError::AmbiguousInput)
    ));
    assert!(matches!(
        m.check_call(Some(&vec![2]), None, None, None, true),
        Err(ModelError::CacheRequired)
    ));
    assert!(matches!(
        m.check_call(Some(&vec![2]), None, None, None, false),
        Err(ModelError::IdsRank(1))
    ));
    assert!(matches!(
        m.check_call(None, Some(&vec![2, 5]), None, None, false),
        Err(ModelError::EmbeddingsRank(2))
    ));
    assert!(matches!(
        m.check_call(None, Some(&vec![2, 5, 3]), Some(&vec![9]), None, false),
        Err(ModelError::HeadShape)
    ));
    assert!(matches!(
        m.check_call(None, Some(&embeds), Some(&vec![5, 2]), None, false),
        Err(ModelError::PositionShape)
    ));
    assert!(matches!(
        m.check_call(None, Some(&embeds), None, Some(&DynamicCache::new(3)), false),
        Err(ModelError::Cache(CacheError::LayerCountMismatch))
    ));
    assert!(matches!(
        m.check_call(None, Some(&vec![usize::MAX, 2, 2]), None, None, false),
        Err(ModelError::SizeOverflow)
    ));
}
