use interflow::audio_buffer::AudioBuffer;
use interflow::sample::Sample;

#[test]
fn fill_and_dimensions() {
    let b = AudioBuffer::fill(2, 3, 7);
    assert_eq!(2, b.num_channels());
    assert_eq!(3, b.num_samples());
    assert_eq!(vec![7, 7, 7], b.get_channel(1));
    assert_eq!(7, b.get_sample(0, 2));
}

#[test]
fn zeroed_and_defaulted() {
    let z = AudioBuffer::zeroed(3, 4);
    assert_eq!(vec![0, 0, 0], z.get_frame(3));
    assert_eq!(<i32 as Sample>::ZERO, z.get_sample(2, 0));
    let d = AudioBuffer::defaulted(1, 2);
    assert_eq!(vec![0, 0], d.get_channel(0));
    let e = AudioBuffer::default();
    assert_eq!(0, e.num_channels());
    assert_eq!(0, e.num_samples());
}

#[test]
fn empty_channels_keep_sample_count() {
    let b = AudioBuffer::zeroed(0, 512);
    assert_eq!(0, b.num_channels());
    assert_eq!(512, b.num_samples());
    assert_eq!(Vec::<i32>::new(), b.as_interleaved());
}

#[test]
fn fill_with_uses_indices() {
    let b = AudioBuffer::fill_with(2, 3, |ch, i| (10 * ch + i) as i32);
    assert_eq!(vec![0, 1, 2], b.get_channel(0));
    assert_eq!(vec![10, 11, 12], b.get_channel(1));
    assert_eq!(vec![2, 12], b.get_frame(2));
    let chans = b.channels();
    assert_eq!(vec![vec![0, 1, 2], vec![10, 11, 12]], chans);
}

#[test]
fn interleaving() {
    let b = AudioBuffer::fill_with(2, 3, |ch, i| (10 * ch + i) as i32);
    assert_eq!(vec![0, 10, 1, 11, 2, 12], b.as_interleaved());
    let mut out = [0i32; 6];
    assert!(b.copy_into_interleaved(&mut out));
    assert_eq!([0, 10, 1, 11, 2, 12], out);
    let mut short = [9i32; 5];
    assert!(!b.copy_into_interleaved(&mut short));
    assert_eq!([9; 5], short);
}

#[test]
fn from_interleaved_deinterleaves() {
    let data = [1, 2, 3, 4, 5, 6];
    let b = AudioBuffer::from_interleaved(&data, 2).unwrap();
    assert_eq!(2, b.num_channels());
    assert_eq!(3, b.num_samples());
    assert_eq!(vec![1, 3, 5], b.get_channel(0));
    assert_eq!(vec![2, 4, 6], b.get_channel(1));
    let c = AudioBuffer::from_interleaved(&data, 3).unwrap();
    assert_eq!(vec![1, 4], c.get_channel(0));
    let d = AudioBuffer::from_interleaved(&data, 4).unwrap();
    assert_eq!(4, d.num_channels());
    assert_eq!(1, d.num_samples());
    assert_eq!(vec![1, 2, 3, 4], d.get_frame(0));
    let f = AudioBuffer::from_interleaved(&data, 7).unwrap();
    assert_eq!(7, f.num_channels());
    assert_eq!(0, f.num_samples());
    let e = AudioBuffer::from_interleaved(&[], 2).unwrap();
    assert_eq!(0, e.num_samples());
}

#[test]
fn interleave_roundtrip() {
    let b = AudioBuffer::fill_with(3, 4, |ch, i| (ch * 100 + i) as i32);
    let data = b.as_interleaved();
    let back = AudioBuffer::from_interleaved(&data, 3).unwrap();
    assert_eq!(b.channels(), back.channels());
}

#[test]
fn slicing() {
    let b = AudioBuffer::fill_with(2, 5, |ch, i| (10 * ch + i) as i32);
    let s = b.slice(1..4);
    assert_eq!(3, s.num_samples());
    assert_eq!(vec![1, 2, 3], s.get_channel(0));
    assert_eq!(vec![11, 12, 13], s.get_channel(1));
    let e = b.slice(2..2);
    assert_eq!(0, e.num_samples());
    assert_eq!(2, e.num_channels());
}

#[test]
fn frames_and_mono() {
    let mut b = AudioBuffer::zeroed(3, 2);
    b.set_frame(1, &[4, 5, 6]);
    assert_eq!(vec![4, 5, 6], b.get_frame(1));
    assert_eq!(vec![0, 0, 0], b.get_frame(0));
    b.set_mono(0, -1);
    assert_eq!(vec![-1, -1, -1], b.get_frame(0));
    b.set_sample(2, 0, 9);
    assert_eq!(vec![9, 6], b.get_channel(2));
}

#[test]
fn to_owned_copies() {
    let mut b = AudioBuffer::fill(1, 2, 3);
    let c = b.to_owned();
    b.set_sample(0, 0, 8);
    assert_eq!(vec![3, 3], c.get_channel(0));
    assert_eq!(vec![8, 3], b.get_channel(0));
}

#[test]
fn oversized_shapes_are_refused() {
    assert!(AudioBuffer::from_interleaved(&[], usize::MAX).is_none());
    assert!(AudioBuffer::from_interleaved(&[], isize::MAX as usize).is_some());
    let wide = AudioBuffer::fill(0, isize::MAX as usize, 1);
    assert_eq!(0, wide.num_channels());
    assert_eq!(isize::MAX as usize, wide.num_samples());
}
