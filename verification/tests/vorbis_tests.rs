use hexcore::vorbis::{concat_blocks, VorbisData};

#[test]
fn concat_blocks_flattens_in_order() {
    let blocks = vec![vec![-9i16, 3], vec![], vec![886, -6, 0], vec![7]];
    let samples = concat_blocks(&blocks);

    assert_eq!(samples.len(), 6);
    assert_eq!(samples, vec![-9, 3, 886, -6, 0, 7]);
    assert_eq!(samples[0], -9);
    assert_eq!(samples[samples.len() / 2], -6);
    assert_eq!(samples[samples.len() - 1], 7);
}

#[test]
fn concat_blocks_of_nothing_is_empty() {
    assert_eq!(concat_blocks(&vec![]), Vec::<i16>::new());
    assert_eq!(concat_blocks(&vec![vec![], vec![]]), Vec::<i16>::new());
}

#[test]
fn vorbis_data_keeps_rate_and_samples() {
    let d = VorbisData::new(44100, vec![1, 2, 3]);
    assert_eq!(d.sample_rate, 44100);
    assert_eq!(d.samples, vec![1, 2, 3]);
}
