use remini::error::Error;
use remini::tensor::{Layout, Tensor};

fn sample() -> Tensor<u8> {
    // channels 3, height 2, width 2; value = channel * 10 + row * 2 + column
    let data: Vec<u8> = vec![0, 1, 2, 3, 10, 11, 12, 13, 20, 21, 22, 23];
    Tensor::from_parts(vec![1, 3, 2, 2], Layout::ChannelFirst, data).unwrap()
}

#[test]
fn channel_last_moves_channels_innermost() {
    let t = sample().to_channel_last().unwrap();
    assert_eq!(t.shape(), &vec![1, 2, 2, 3]);
    assert_eq!(t.layout(), Layout::ChannelLast);
    assert_eq!(t.data(), &vec![0, 10, 20, 1, 11, 21, 2, 12, 22, 3, 13, 23]);
}

#[test]
fn permutation_round_trip_restores_tensor() {
    let start = sample();
    let back = start.to_channel_last().unwrap().to_channel_first().unwrap();
    assert_eq!(back.shape(), start.shape());
    assert_eq!(back.layout(), Layout::ChannelFirst);
    assert_eq!(back.data(), start.data());
}

#[test]
fn permutation_round_trip_on_non_square_planes() {
    let data: Vec<u32> = (0..3 * 4 * 5).collect();
    let t = Tensor::from_parts(vec![1, 3, 4, 5], Layout::ChannelFirst, data.clone()).unwrap();
    let last = t.to_channel_last().unwrap();
    assert_eq!(last.shape(), &vec![1, 4, 5, 3]);
    // channel 2, row 1, column 3
    assert_eq!(last.data()[(1 * 5 + 3) * 3 + 2], data[(2 * 4 + 1) * 5 + 3]);
    let back = last.to_channel_first().unwrap();
    assert_eq!(back.data(), &data);
}

#[test]
fn wrong_layout_is_a_layout_error() {
    let last = sample().to_channel_last().unwrap();
    assert!(matches!(last.to_channel_last(), Err(Error::Layout)));
    assert!(matches!(sample().to_channel_first(), Err(Error::Layout)));
}

#[test]
fn mismatched_parts_are_refused() {
    let r = Tensor::from_parts(vec![1, 3, 2], Layout::ChannelFirst, vec![0u8; 6]);
    assert!(matches!(r, Err(Error::Layout)));
    let r = Tensor::from_parts(vec![1, 3, 2, 2], Layout::ChannelFirst, vec![0u8; 11]);
    assert!(matches!(r, Err(Error::Layout)));
    let r = Tensor::from_parts(vec![2, 4], Layout::Sequence, vec![0u32; 4]);
    assert!(matches!(r, Err(Error::Layout)));
    let r = Tensor::from_parts(vec![1, usize::MAX, 2, 0], Layout::ChannelFirst, Vec::<u8>::new());
    assert!(r.is_ok());
}
