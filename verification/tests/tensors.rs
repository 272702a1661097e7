use candle_core::{DType, Device, Tensor};
use candle_nn::RmsNorm;
use deepseek_ocr::transformer::cache::KvChunk;
use deepseek_ocr::transformer::decoder::{
    absorb_layer, accumulate_aux_loss, check_layer_output, positions_match, same_dims,
    LayerOutput, StackRun,
};
use deepseek_ocr::transformer::embedding::{check_lookup, embed_ids, gather_embeddings};
use deepseek_ocr::transformer::error::ModelError;
use deepseek_ocr::transformer::positions::{
    check_positions, resolve_positions, synthesize_positions,
};
use deepseek_ocr::transformer::projection::{check_projection, project_logits};

fn table() -> Tensor {
    Tensor::from_vec(vec![1.0f32, 2.0, 3.0, 4.0, 5.0, 6.0], (3, 2), &Device::Cpu).unwrap()
}

fn flat(t: &Tensor) -> Vec<f32> {
    t.flatten_all().unwrap().to_vec1::<f32>().unwrap()
}

#[test]
fn positions_count_from_the_cache_length_in_every_row() {
    let t = synthesize_positions(0, 1, 5, &Device::Cpu).unwrap();
    assert_eq!(t.dims(), &[1, 5]);
    assert_eq!(t.dtype(), DType::I64);
    assert_eq!(t.to_vec2::<i64>().unwrap(), vec![vec![0, 1, 2, 3, 4]]);
    let t = synthesize_positions(7, 1, 1, &Device::Cpu).unwrap();
    assert_eq!(t.to_vec2::<i64>().unwrap(), vec![vec![7]]);
    let t = synthesize_positions(3, 3, 2, &Device::Cpu).unwrap();
    assert_eq!(t.to_vec2::<i64>().unwrap(), vec![vec![3, 4], vec![3, 4], vec![3, 4]]);
    assert!(t.is_contiguous());
    assert!(t.device().is_cpu());
}

#[test]
fn positions_of_no_tokens_or_no_rows_are_empty() {
    let t = synthesize_positions(4, 2, 0, &Device::Cpu).unwrap();
    assert_eq!(t.dims(), &[2, 0]);
    let t = synthesize_positions(4, 0, 3, &Device::Cpu).unwrap();
    assert_eq!(t.dims(), &[0, 3]);
}

#[test]
fn positions_are_checked_for_their_range() {
    assert!(matches!(check_positions(0, 1, 5), Ok((0, 5))));
    assert!(matches!(check_positions(7, 2, 1), Ok((7, 8))));
    let top = i64::MAX as usize;
    assert!(matches!(check_positions(top - 1, 1, 1), Ok((_, i64::MAX))));
    assert!(matches!(check_positions(top, 1, 1), Err(ModelError::PositionOverflow)));
    assert!(matches!(check_positions(usize::MAX, 1, 1), Err(ModelError::PositionOverflow)));
    assert!(matches!(check_positions(0, usize::MAX, 2), Err(ModelError::SizeOverflow)));
    assert!(matches!(check_positions(0, 2, usize::MAX), Err(ModelError::PositionOverflow)));
    assert!(matches!(check_positions(0, 1 << 40, 1 << 40), Err(ModelError::SizeOverflow)));
    assert!(matches!(
        synthesize_positions(top, 1, 1, &Device::Cpu),
        Err(ModelError::PositionOverflow)
    ));
}

#[test]
fn rows_of_the_table_are_gathered() {
    let ids = Tensor::from_vec(vec![2i64, 0, 1, 2], (2, 2), &Device::Cpu).unwrap();
    let out = gather_embeddings(&table(), &ids).unwrap();
    assert_eq!(out.dims(), &[2, 2, 2]);
    assert_eq!(flat(&out), vec![5.0, 6.0, 1.0, 2.0, 3.0, 4.0, 5.0, 6.0]);
    let out = embed_ids(&table(), &ids).unwrap();
    assert_eq!(flat(&out), vec![5.0, 6.0, 1.0, 2.0, 3.0, 4.0, 5.0, 6.0]);
}

#[test]
fn no_ids_give_no_embeddings() {
    let ids = Tensor::zeros((2, 0), DType::I64, &Device::Cpu).unwrap();
    let out = gather_embeddings(&table(), &ids).unwrap();
    assert_eq!(out.dims(), &[2, 0, 2]);
}

#[test]
fn a_lookup_is_checked_by_its_dimension_sizes() {
    assert!(matches!(check_lookup(&vec![3, 2], &vec![2, 3]), Ok((2, 3, 2))));
    assert!(matches!(check_lookup(&vec![3, 2], &vec![6]), Err(ModelError::IdsRank(1))));
    assert!(matches!(check_lookup(&vec![3], &vec![6]), Err(ModelError::IdsRank(1))));
    assert!(matches!(check_lookup(&vec![3], &vec![2, 3]), Err(ModelError::TableRank(1))));
    assert!(matches!(
        check_lookup(&vec![usize::MAX, 2], &vec![1, 1]),
        Err(ModelError::SizeOverflow)
    ));
    assert!(matches!(
        check_lookup(&vec![3, 2], &vec![usize::MAX, 2]),
        Err(ModelError::SizeOverflow)
    ));
    assert!(matches!(
        check_lookup(&vec![3, 4], &vec![usize::MAX / 2, 1]),
        Err(ModelError::SizeOverflow)
    ));
}

#[test]
fn hidden_states_are_normalised_and_projected() {
    let norm = RmsNorm::new(
        Tensor::from_vec(vec![1.0f32, 2.0], 2, &Device::Cpu).unwrap(),
        0.0,
    );
    let head = table();
    let hidden = Tensor::from_vec(vec![3.0f32, 4.0, 0.0, 2.0], (1, 2, 2), &Device::Cpu).unwrap();
    let (normed, logits) = project_logits(&norm, &head, 3, &hidden).unwrap();
    assert_eq!(normed.dims(), &[1, 2, 2]);
    assert_eq!(logits.dims(), &[1, 2, 3]);
    let rms = (12.5f32).sqrt();
    let first = [3.0 / rms, 8.0 / rms];
    let second = [0.0f32, 4.0 / (2.0f32).sqrt()];
    let got = flat(&normed);
    for (g, w) in got.iter().zip([first[0], first[1], second[0], second[1]].iter()) {
        assert!((g - w).abs() < 1e-5);
    }
    let wanted = [
        first[0] + 2.0 * first[1],
        3.0 * first[0] + 4.0 * first[1],
        5.0 * first[0] + 6.0 * first[1],
        second[0] + 2.0 * second[1],
        3.0 * second[0] + 4.0 * second[1],
        5.0 * second[0] + 6.0 * second[1],
    ];
    for (g, w) in flat(&logits).iter().zip(wanted.iter()) {
        assert!((g - w).abs() < 1e-4);
    }
}

#[test]
fn a_projection_is_checked_by_its_dimension_sizes() {
    assert!(matches!(check_projection(&vec![2, 3, 4], &vec![9, 4], 9), Ok((2, 3, 4))));
    assert!(matches!(
        check_projection(&vec![3, 4], &vec![9, 4], 9),
        Err(ModelError::EmbeddingsRank(2))
    ));
    assert!(matches!(
        check_projection(&vec![2, 3, 0], &vec![9, 0], 9),
        Err(ModelError::EmptyHidden)
    ));
    assert!(matches!(
        check_projection(&vec![usize::MAX, 2, 4], &vec![9, 4], 9),
        Err(ModelError::SizeOverflow)
    ));
    assert!(matches!(
        check_projection(&vec![usize::MAX / 2, 1, 4], &vec![9, 4], 9),
        Err(ModelError::SizeOverflow)
    ));
    assert!(matches!(
        check_projection(&vec![2, 3, 4], &vec![9, 5], 9),
        Err(ModelError::HeadShape)
    ));
    assert!(matches!(
        check_projection(&vec![2, 3, 4], &vec![8, 4], 9),
        Err(ModelError::HeadShape)
    ));
    assert!(matches!(
        check_projection(&vec![2, 3, 4], &vec![9, 4, 1], 9),
        Err(ModelError::HeadShape)
    ));
    assert!(matches!(
        check_projection(&vec![usize::MAX / 8, 2, 1], &vec![9, 1], 9),
        Err(ModelError::SizeOverflow)
    ));
    assert!(matches!(check_projection(&vec![0, 3, 4], &vec![9, 4], 9), Ok((0, 3, 4))));
}

#[test]
fn a_projection_of_no_positions_is_empty() {
    let norm = RmsNorm::new(Tensor::ones(2, DType::F32, &Device::Cpu).unwrap(), 1e-6);
    let hidden = Tensor::zeros((2, 0, 2), DType::F32, &Device::Cpu).unwrap();
    let (normed, logits) = project_logits(&norm, &table(), 3, &hidden).unwrap();
    assert_eq!(normed.dims(), &[2, 0, 2]);
    assert_eq!(logits.dims(), &[2, 0, 3]);
}

#[test]
fn a_norm_of_another_width_is_a_backend_error() {
    let norm = RmsNorm::new(Tensor::ones(3, DType::F32, &Device::Cpu).unwrap(), 1e-6);
    let hidden = Tensor::ones((1, 1, 2), DType::F32, &Device::Cpu).unwrap();
    assert!(matches!(project_logits(&norm, &table(), 3, &hidden), Err(ModelError::Backend(_))));
}

#[test]
fn hidden_states_laid_out_otherwise_are_normalised_too() {
    let norm = RmsNorm::new(Tensor::ones(2, DType::F32, &Device::Cpu).unwrap(), 0.0);
    let stored =
        Tensor::from_vec(vec![3.0f32, 0.0, 4.0, 2.0], (1, 2, 2), &Device::Cpu).unwrap();
    let hidden = stored.transpose(1, 2).unwrap();
    assert!(!hidden.is_contiguous());
    let (normed, logits) = project_logits(&norm, &table(), 3, &hidden).unwrap();
    assert!(normed.is_contiguous());
    let rms = (12.5f32).sqrt();
    let got = flat(&normed);
    assert!((got[0] - 3.0 / rms).abs() < 1e-5 && (got[1] - 4.0 / rms).abs() < 1e-5);
    assert!((got[2] - 0.0).abs() < 1e-5 && (got[3] - (2.0f32).sqrt()).abs() < 1e-5);
    assert_eq!(logits.dims(), &[1, 2, 3]);
}

#[test]
fn a_norm_built_for_a_wider_axis_is_refused_by_the_backend() {
    let norm = RmsNorm::new(Tensor::ones(3, DType::F32, &Device::Cpu).unwrap(), 1e-6);
    let head = Tensor::ones((4, 1), DType::F32, &Device::Cpu).unwrap();
    let one = Tensor::ones((1, 1, 1), DType::F32, &Device::Cpu).unwrap();
    let hidden = one.expand((3, 2, 1)).unwrap();
    assert!(!hidden.is_contiguous());
    let r = project_logits(&norm, &head, 4, &hidden);
    assert!(matches!(r, Err(ModelError::Backend(_))));
}

#[test]
fn an_empty_axis_does_not_hide_an_overflow() {
    let ids = Tensor::zeros((0, 1usize << 40), DType::I64, &Device::Cpu).unwrap();
    let wide = Tensor::zeros((0, 1usize << 40), DType::F32, &Device::Cpu).unwrap();
    assert!(matches!(gather_embeddings(&wide, &ids), Err(ModelError::SizeOverflow)));
    assert!(matches!(embed_ids(&wide, &ids), Err(ModelError::SizeOverflow)));
    assert!(matches!(
        check_lookup(&vec![0, 1 << 40], &vec![0, 1 << 40]),
        Err(ModelError::SizeOverflow)
    ));
    assert!(matches!(
        check_projection(&vec![0, 1 << 40, 1 << 40], &vec![9, 1 << 40], 9),
        Err(ModelError::SizeOverflow)
    ));
    assert!(matches!(check_positions(0, 0, 1 << 40), Ok((0, _))));
    assert!(matches!(check_positions(0, 0, 5), Ok((0, 5))));
}

#[test]
fn dimension_sizes_are_compared() {
    assert!(same_dims(&vec![], &vec![]));
    assert!(same_dims(&vec![1, 2, 3], &vec![1, 2, 3]));
    assert!(!same_dims(&vec![1, 2, 3], &vec![1, 2]));
    assert!(!same_dims(&vec![1, 2], &vec![1, 2, 3]));
    assert!(!same_dims(&vec![1, 2, 3], &vec![1, 2, 4]));
    assert!(!same_dims(&vec![0, 2, 3], &vec![1, 2, 3]));
    assert!(positions_match(&vec![2, 3], 2, 3));
    assert!(!positions_match(&vec![3, 2], 2, 3));
    assert!(!positions_match(&vec![2, 3, 1], 2, 3));
    assert!(!positions_match(&vec![2], 2, 3));
}

#[test]
fn the_output_of_a_layer_must_keep_the_shape() {
    let t = Tensor::zeros((1, 2, 3), DType::F32, &Device::Cpu).unwrap();
    let out = LayerOutput { hidden_states: t.clone(), key: t.clone(), value: t, aux_loss: None };
    assert!(check_layer_output(4, &vec![1, 2, 3], &out).is_ok());
    assert!(matches!(
        check_layer_output(4, &vec![1, 3, 2], &out),
        Err(ModelError::LayerShape(4))
    ));
    assert!(matches!(check_layer_output(0, &vec![1, 2], &out), Err(ModelError::LayerShape(0))));
}

#[test]
fn losses_are_added_up() {
    let one = Tensor::new(&[1.5f32], &Device::Cpu).unwrap();
    let two = Tensor::new(&[2.0f32], &Device::Cpu).unwrap();
    assert!(accumulate_aux_loss(None, None).unwrap().is_none());
    let kept = accumulate_aux_loss(Some(one.clone()), None).unwrap().unwrap();
    assert_eq!(kept.to_vec1::<f32>().unwrap(), vec![1.5]);
    let started = accumulate_aux_loss(None, Some(two.clone())).unwrap().unwrap();
    assert_eq!(started.to_vec1::<f32>().unwrap(), vec![2.0]);
    let total = accumulate_aux_loss(Some(one.clone()), Some(two)).unwrap().unwrap();
    assert_eq!(total.to_vec1::<f32>().unwrap(), vec![3.5]);
    let other = Tensor::new(&[1.0f32, 2.0], &Device::Cpu).unwrap();
    assert!(matches!(accumulate_aux_loss(Some(one), Some(other)), Err(ModelError::Backend(_))));
}

#[test]
fn a_loss_too_large_to_count_is_refused() {
    let one = Tensor::new(&[[1.0f32]], &Device::Cpu).unwrap();
    let huge = one.expand((usize::MAX, 2)).unwrap();
    let r = accumulate_aux_loss(Some(huge.clone()), Some(huge));
    assert!(matches!(r, Err(ModelError::SizeOverflow)));
}

#[test]
fn a_loss_that_holds_integers_is_not_added() {
    let one = Tensor::new(&[250u8], &Device::Cpu).unwrap();
    let two = Tensor::new(&[10u8], &Device::Cpu).unwrap();
    let r = accumulate_aux_loss(Some(one.clone()), Some(two.clone()));
    assert!(matches!(r, Err(ModelError::LossType)));
    let kept = accumulate_aux_loss(Some(one), None).unwrap().unwrap();
    assert_eq!(kept.to_vec1::<u8>().unwrap(), vec![250]);
    let started = accumulate_aux_loss(None, Some(two)).unwrap().unwrap();
    assert_eq!(started.to_vec1::<u8>().unwrap(), vec![10]);
}

#[test]
fn the_type_of_a_loss_is_looked_at_before_its_size() {
    let one = Tensor::new(&[[1u32]], &Device::Cpu).unwrap();
    let huge = one.expand((usize::MAX, 2)).unwrap();
    let r = accumulate_aux_loss(Some(huge.clone()), Some(huge));
    assert!(matches!(r, Err(ModelError::LossType)));
}

#[test]
fn given_positions_are_used_as_they_are() {
    let given = Tensor::from_vec(vec![9i64, 1, 5], (1, 3), &Device::Cpu).unwrap();
    let chosen = resolve_positions(Some(&given), 7, 1, 3, &Device::Cpu).unwrap();
    assert_eq!(chosen.id(), given.id());
    assert_eq!(chosen.to_vec2::<i64>().unwrap(), vec![vec![9, 1, 5]]);
    let odd = Tensor::from_vec(vec![1.5f32], 1, &Device::Cpu).unwrap();
    let chosen = resolve_positions(Some(&odd), usize::MAX, usize::MAX, 2, &Device::Cpu).unwrap();
    assert_eq!(chosen.id(), odd.id());
}

#[test]
fn without_given_positions_they_continue_the_cache() {
    let chosen = resolve_positions(None, 7, 2, 1, &Device::Cpu).unwrap();
    assert_eq!(chosen.to_vec2::<i64>().unwrap(), vec![vec![7], vec![7]]);
    let chosen = resolve_positions(None, 0, 1, 5, &Device::Cpu).unwrap();
    assert_eq!(chosen.to_vec2::<i64>().unwrap(), vec![vec![0, 1, 2, 3, 4]]);
    assert!(matches!(
        resolve_positions(None, i64::MAX as usize, 1, 1, &Device::Cpu),
        Err(ModelError::PositionOverflow)
    ));
}

#[test]
fn the_output_of_a_layer_is_taken_into_the_run() {
    let t = |v: f32| Tensor::from_vec(vec![v; 2], (1, 1, 2), &Device::Cpu).unwrap();
    let run = StackRun { hidden_states: t(0.0), chunks: Vec::new(), aux_loss: None };
    let out = LayerOutput {
        hidden_states: t(1.0),
        key: t(2.0),
        value: t(3.0),
        aux_loss: Some(Tensor::new(&[0.5f32], &Device::Cpu).unwrap()),
    };
    let run = absorb_layer(0, &vec![1, 1, 2], run, out).unwrap();
    assert_eq!(flat(&run.hidden_states), vec![1.0, 1.0]);
    assert_eq!(run.chunks.len(), 1);
    assert_eq!(flat(&run.chunks[0].key), vec![2.0, 2.0]);
    assert_eq!(flat(&run.chunks[0].value), vec![3.0, 3.0]);
    assert_eq!(run.aux_loss.as_ref().unwrap().to_vec1::<f32>().unwrap(), vec![0.5]);
    let out = LayerOutput {
        hidden_states: t(4.0),
        key: t(5.0),
        value: t(6.0),
        aux_loss: Some(Tensor::new(&[0.25f32], &Device::Cpu).unwrap()),
    };
    let run = absorb_layer(1, &vec![1, 1, 2], run, out).unwrap();
    assert_eq!(flat(&run.hidden_states), vec![4.0, 4.0]);
    assert_eq!(run.chunks.len(), 2);
    assert_eq!(flat(&run.chunks[0].key), vec![2.0, 2.0]);
    assert_eq!(flat(&run.chunks[1].value), vec![6.0, 6.0]);
    assert_eq!(run.aux_loss.as_ref().unwrap().to_vec1::<f32>().unwrap(), vec![0.75]);
    let kept: Vec<KvChunk> = run.chunks;
    let bad = LayerOutput { hidden_states: t(0.0).reshape((1, 2, 1)).unwrap(), key: t(0.0), value: t(0.0), aux_loss: None };
    let run = StackRun { hidden_states: t(0.0), chunks: kept, aux_loss: None };
    assert!(matches!(absorb_layer(7, &vec![1, 1, 2], run, bad), Err(ModelError::LayerShape(7))));
}

#[test]
fn ids_of_unsigned_bytes_name_the_same_rows() {
    let ids = Tensor::from_vec(vec![2u8, 0, 1, 2], (2, 2), &Device::Cpu).unwrap();
    let out = embed_ids(&table(), &ids).unwrap();
    assert_eq!(flat(&out), vec![5.0, 6.0, 1.0, 2.0, 3.0, 4.0, 5.0, 6.0]);
    let wide = Tensor::from_vec(vec![1u32, 1], (1, 2), &Device::Cpu).unwrap();
    let out = embed_ids(&table(), &wide).unwrap();
    assert_eq!(flat(&out), vec![3.0, 4.0, 3.0, 4.0]);
    assert_eq!(out.dtype(), DType::F32);
}
