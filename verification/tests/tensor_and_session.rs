use face_embeddings::error::EmbeddingError;
use face_embeddings::image::Image;
use face_embeddings::session::{
    advance, first_stage, output_shape, FaceEmbeddings, Next, Stage, DEFAULT_MODEL_PATH,
};
use face_embeddings::tensor::{check_source, to_tensor, CHANNELS, IMG_SIZE};

fn counting(width: usize, height: usize, channels: usize) -> Image {
    let n = width * height * channels;
    let data: Vec<u8> = (0..n).map(|i| (i % 251) as u8).collect();
    Image::new(width, height, channels, data).unwrap()
}

#[test]
fn input_size_is_112_by_112_by_3() {
    assert_eq!(IMG_SIZE, 112);
    assert_eq!(CHANNELS, 3);
}

#[test]
fn check_source_accepts_three_channels() {
    assert_eq!(check_source(&counting(5, 4, 3)), Ok(()));
    assert_eq!(check_source(&counting(1, 1, 3)), Ok(()));
}

#[test]
fn check_source_rejects_other_channel_counts() {
    assert_eq!(check_source(&counting(5, 4, 1)), Err(EmbeddingError::UnsupportedShape));
    assert_eq!(check_source(&counting(5, 4, 4)), Err(EmbeddingError::UnsupportedShape));
}

#[test]
fn check_source_rejects_empty_images() {
    assert_eq!(check_source(&counting(0, 4, 3)), Err(EmbeddingError::UnsupportedShape));
    assert_eq!(check_source(&counting(5, 0, 3)), Err(EmbeddingError::UnsupportedShape));
}

#[test]
fn to_tensor_keeps_levels_in_height_width_channel_order() {
    let img = Image::new(2, 2, 3, vec![1, 2, 3, 4, 5, 6, 7, 8, 9, 10, 11, 12]).unwrap();
    let t = to_tensor(&img, (2, 2), false).unwrap();
    assert_eq!(t.shape(), (2, 2, 3));
    assert_eq!(t.data(), &vec![1u8, 2, 3, 4, 5, 6, 7, 8, 9, 10, 11, 12]);
    assert_eq!(t.at(1, 0, 2), Some(9));
    assert_eq!(t.at(0, 1, 0), Some(4));
    assert_eq!(t.at(2, 0, 0), None);
    assert_eq!(t.at(0, 2, 0), None);
    assert_eq!(t.at(0, 0, 3), None);
}

#[test]
fn to_tensor_reverses_the_channels_of_every_pixel() {
    let img = Image::new(2, 2, 3, vec![1, 2, 3, 4, 5, 6, 7, 8, 9, 10, 11, 12]).unwrap();
    let t = to_tensor(&img, (2, 2), true).unwrap();
    assert_eq!(t.shape(), (2, 2, 3));
    assert_eq!(t.data(), &vec![3u8, 2, 1, 6, 5, 4, 9, 8, 7, 12, 11, 10]);
    assert_eq!(t.at(1, 1, 0), Some(12));
    assert_eq!(t.at(1, 1, 2), Some(10));
}

#[test]
fn to_tensor_of_non_square_image() {
    let img = counting(3, 2, 3);
    let t = to_tensor(&img, (2, 3), true).unwrap();
    assert_eq!(t.shape(), (2, 3, 3));
    for y in 0..2 {
        for x in 0..3 {
            for c in 0..3 {
                assert_eq!(t.at(y, x, c), img.pixel(x, y, 2 - c));
            }
        }
    }
}

#[test]
fn to_tensor_rejects_an_image_of_another_size() {
    let img = counting(3, 2, 3);
    assert_eq!(to_tensor(&img, (3, 2), false).unwrap_err(), EmbeddingError::UnsupportedShape);
    assert_eq!(to_tensor(&img, (2, 2), false).unwrap_err(), EmbeddingError::UnsupportedShape);
}

#[test]
fn to_tensor_rejects_other_channel_counts_and_empty_targets() {
    assert_eq!(
        to_tensor(&counting(2, 2, 4), (2, 2), false).unwrap_err(),
        EmbeddingError::UnsupportedShape
    );
    assert_eq!(
        to_tensor(&counting(2, 2, 1), (2, 2), true).unwrap_err(),
        EmbeddingError::UnsupportedShape
    );
    assert_eq!(
        to_tensor(&counting(0, 0, 3), (0, 0), false).unwrap_err(),
        EmbeddingError::UnsupportedShape
    );
}

#[test]
fn into_batch_puts_an_axis_of_one_in_front() {
    let img = counting(3, 2, 3);
    let t = to_tensor(&img, (2, 3), true).unwrap();
    let levels = t.data().clone();
    let batch = t.into_batch();
    assert_eq!(batch.dims(), &vec![1usize, 2, 3, 3]);
    assert_eq!(batch.data(), &levels);
    assert_eq!(batch.data().len(), 18);
}

#[test]
fn input_tensor_has_shape_112_112_3() {
    let session = FaceEmbeddings::new(None);
    let img = counting(112, 112, 3);
    let t = session.input_tensor(&img).unwrap();
    assert_eq!(t.dims(), &vec![1usize, 112, 112, 3]);
    assert_eq!(t.data().len(), 37632);
    assert_eq!(t.data(), img.data());
}

#[test]
fn input_tensor_follows_the_channel_order_of_the_session() {
    let session = FaceEmbeddings::new(None).with_reversed_channels(true);
    assert!(session.reverse_channels());
    let img = counting(112, 112, 3);
    let t = session.input_tensor(&img).unwrap();
    let at = |y: usize, x: usize, c: usize| Some(t.data()[(y * 112 + x) * 3 + c]);
    assert_eq!(at(5, 7, 0), img.pixel(7, 5, 2));
    assert_eq!(at(5, 7, 1), img.pixel(7, 5, 1));
    assert_eq!(at(111, 111, 2), img.pixel(111, 111, 0));
    assert_eq!(at(0, 0, 0), Some(2));
}

#[test]
fn input_tensor_rejects_a_region_that_was_not_resized() {
    let session = FaceEmbeddings::new(None);
    assert_eq!(
        session.input_tensor(&counting(111, 112, 3)).unwrap_err(),
        EmbeddingError::UnsupportedShape
    );
    assert_eq!(
        session.input_tensor(&counting(112, 112, 1)).unwrap_err(),
        EmbeddingError::UnsupportedShape
    );
}

#[test]
fn new_without_a_path_uses_the_default() {
    let session = FaceEmbeddings::new(None);
    assert_eq!(session.model_path(), "./models/face_embeddings.tflite");
    assert_eq!(DEFAULT_MODEL_PATH, "./models/face_embeddings.tflite");
    assert!(!session.reverse_channels());
}

#[test]
fn new_with_a_path_keeps_it() {
    let session = FaceEmbeddings::new(Some(String::from("/tmp/other.tflite")));
    assert_eq!(session.model_path(), "/tmp/other.tflite");
    let session = session.with_reversed_channels(true).with_reversed_channels(false);
    assert_eq!(session.model_path(), "/tmp/other.tflite");
    assert!(!session.reverse_channels());
}

#[test]
fn output_shape_follows_a_model_of_width_128() {
    assert_eq!(output_shape(&vec![1, 128], 128), Ok((1, 128)));
}

#[test]
fn output_shape_follows_a_model_of_width_512() {
    assert_eq!(output_shape(&vec![1, 512], 512), Ok((1, 512)));
}

#[test]
fn output_shape_reads_the_first_two_extents() {
    assert_eq!(output_shape(&vec![2, 3, 9], 6), Ok((2, 3)));
    assert_eq!(output_shape(&vec![0, 7], 0), Ok((0, 7)));
}

#[test]
fn output_shape_without_two_extents_is_missing_output_info() {
    assert_eq!(output_shape(&vec![], 0), Err(EmbeddingError::MissingOutputInfo));
    assert_eq!(output_shape(&vec![128], 128), Err(EmbeddingError::MissingOutputInfo));
}

#[test]
fn output_shape_that_contradicts_the_buffer_is_missing_output_info() {
    assert_eq!(output_shape(&vec![1, 128], 512), Err(EmbeddingError::MissingOutputInfo));
    assert_eq!(output_shape(&vec![1, 512], 128), Err(EmbeddingError::MissingOutputInfo));
    assert_eq!(output_shape(&vec![usize::MAX, 2], 10), Err(EmbeddingError::MissingOutputInfo));
}

#[test]
fn stages_run_in_order_when_each_succeeds() {
    let expected = [
        Stage::BuildContext,
        Stage::AllocateTensors,
        Stage::Crop,
        Stage::Preprocess,
        Stage::BindInput,
        Stage::Invoke,
        Stage::ReadOutput,
        Stage::Normalize,
    ];
    let mut stage = first_stage();
    let mut seen = vec![stage];
    loop {
        match advance(stage, true) {
            Next::Run(following) => {
                seen.push(following);
                stage = following;
            }
            Next::Finished => break,
            Next::Failed(e) => panic!("unexpected failure {:?}", e),
        }
        assert!(seen.len() <= 8);
    }
    assert_eq!(seen, expected.to_vec());
}

#[test]
fn a_failed_stage_ends_the_call_with_its_failure() {
    assert_eq!(advance(Stage::BuildContext, false), Next::Failed(EmbeddingError::AllocationError));
    assert_eq!(advance(Stage::AllocateTensors, false), Next::Failed(EmbeddingError::AllocationError));
    assert_eq!(advance(Stage::Crop, false), Next::Failed(EmbeddingError::InvalidRegion));
    assert_eq!(advance(Stage::Preprocess, false), Next::Failed(EmbeddingError::UnsupportedShape));
    assert_eq!(advance(Stage::BindInput, false), Next::Failed(EmbeddingError::AllocationError));
    assert_eq!(advance(Stage::Invoke, false), Next::Failed(EmbeddingError::InferenceError));
    assert_eq!(advance(Stage::ReadOutput, false), Next::Failed(EmbeddingError::MissingOutputInfo));
}

#[test]
fn normalizing_always_finishes_the_call() {
    assert_eq!(advance(Stage::Normalize, true), Next::Finished);
    assert_eq!(advance(Stage::Normalize, false), Next::Finished);
}

#[test]
fn every_failure_has_its_own_message() {
    let all = [
        EmbeddingError::InvalidRegion,
        EmbeddingError::UnsupportedShape,
        EmbeddingError::ModelLoadError,
        EmbeddingError::AllocationError,
        EmbeddingError::InferenceError,
        EmbeddingError::MissingOutputInfo,
    ];
    for (i, a) in all.iter().enumerate() {
        assert!(!a.message().is_empty());
        for b in all.iter().skip(i + 1) {
            assert_ne!(a.message(), b.message());
        }
    }
    assert_eq!(EmbeddingError::MissingOutputInfo.message(), "missing embeddings outputs info");
    assert_eq!(EmbeddingError::InvalidRegion.message(), "bounding box is empty or outside the image");
}
