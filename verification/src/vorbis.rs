//! Assembly of decoded audio: the decoder yields one block of
//! channel-interleaved samples at a time, and the blocks are concatenated
//! in arrival order into one flat buffer.

use vstd::prelude::*;

verus! {

/// The fully decoded result of one compressed-audio decode: the stream's
/// sample rate and every channel-interleaved sample, in arrival order.
/// Immutable once produced.
pub struct VorbisData {
    pub sample_rate: i32,
    pub samples: Vec<i16>,
}

impl VorbisData {
    /// Package a decoded stream.
    pub fn new(sample_rate: i32, samples: Vec<i16>) -> (r: Self)
        ensures
            r.sample_rate == sample_rate,
            r.samples == samples,
    {
        VorbisData { sample_rate, samples }
    }
}

/// The sample buffer that a sequence of decoded blocks assembles to.
pub open spec fn assembled_samples(blocks: Seq<Vec<i16>>) -> Seq<i16> {
    blocks.map_values(|b: Vec<i16>| b@).flatten()
}

/// Concatenate decoded blocks in arrival order into one flat sample
/// buffer.
pub fn concat_blocks(blocks: &Vec<Vec<i16>>) -> (r: Vec<i16>)
    ensures
        r@ == assembled_samples(blocks@),
{
    let ghost views = blocks@.map_values(|b: Vec<i16>| b@);
    let mut r: Vec<i16> = Vec::new();
    let mut i: usize = 0;
    assert(views.subrange(0, 0) =~= Seq::<Seq<i16>>::empty());
    assert(Seq::<Seq<i16>>::empty().flatten() =~= Seq::<i16>::empty());
    while i < blocks.len()
        invariant
            i <= blocks@.len(),
            views == blocks@.map_values(|b: Vec<i16>| b@),
            r@ =~= views.subrange(0, i as int).flatten(),
        decreases blocks@.len() - i,
    {
        let block = &blocks[i];
        let mut j: usize = 0;
        while j < block.len()
            invariant
                j <= block@.len(),
                i < blocks@.len(),
                block@ == blocks@[i as int]@,
                views == blocks@.map_values(|b: Vec<i16>| b@),
                r@ =~= views.subrange(0, i as int).flatten() + block@.subrange(0, j as int),
            decreases block@.len() - j,
        {
            r.push(block[j]);
            assert(block@.subrange(0, j + 1) =~= block@.subrange(0, j as int).push(block@[j as int]));
            j = j + 1;
        }
        proof {
            assert(block@.subrange(0, block@.len() as int) =~= block@);
            assert(views.subrange(0, i + 1) =~= views.subrange(0, i as int).push(views[i as int]));
            views.subrange(0, i as int).lemma_flatten_push(views[i as int]);
        }
        i = i + 1;
    }
    proof {
        assert(views.subrange(0, views.len() as int) =~= views);
    }
    r
}

} // verus!
