//! The rotation of the scene: its uniform, and the seeds of its jitter.
//!
//! The angle and the noise that drives it are floating-point numbers and
//! stay with the caller, who writes the transform and the jitter into the
//! uniform kept here.

use crate::uniform::{is_identity, is_memory_image, matrix_words, push_matrix, words_to_bytes};
use crate::uniform::{ONE, ZERO};
use vstd::prelude::*;

verus! {

/// The number of colour channels that jitter.
pub const CHANNELS: usize = 4;

/// The seeds of the noise of the four colour channels, in the order red,
/// green, blue, alpha.
pub open spec fn spec_jitter_seeds() -> Seq<u32> {
    seq![47u32, 48u32, 49u32, 50u32]
}

/// The seeds of the channels' noise. No two channels share a seed, so that
/// the channels do not flicker together.
pub fn jitter_seeds() -> (seeds: [u32; 4])
    ensures
        seeds@ == spec_jitter_seeds(),
        forall|i: int, j: int| 0 <= i < j < CHANNELS ==> seeds[i] != seeds[j],
{
    let seeds: [u32; 4] = [47, 48, 49, 50];
    assert(seeds@ =~= spec_jitter_seeds());
    seeds
}

/// The uniform of the rotation: a transform and, where the scene
/// flickers, one jitter value for each colour channel.
#[derive(Debug, Clone, Copy)]
pub struct RotationRaw {
    pub transform: [[u32; 4]; 4],
    pub jitter: Option<[u32; 4]>,
}

impl RotationRaw {
    /// The words of the uniform in the order of its layout: the transform,
    /// then the jitter if there is one.
    pub open spec fn words(self) -> Seq<u32> {
        match self.jitter {
            Some(jitter) => matrix_words(self.transform) + jitter@,
            None => matrix_words(self.transform),
        }
    }

    /// The uniform of a scene that has not turned yet.
    pub fn new(jitter: Option<[u32; 4]>) -> (raw: RotationRaw)
        ensures
            is_identity(raw.transform),
            raw.jitter == jitter,
    {
        RotationRaw {
            transform: [
                [ONE, ZERO, ZERO, ZERO],
                [ZERO, ONE, ZERO, ZERO],
                [ZERO, ZERO, ONE, ZERO],
                [ZERO, ZERO, ZERO, ONE],
            ],
            jitter,
        }
    }

    /// The bytes of the uniform as they are written to its buffer: 64
    /// without jitter, 80 with it.
    pub fn to_bytes(&self) -> (bytes: Vec<u8>)
        ensures
            bytes@.len() == if self.jitter.is_some() {
                80int
            } else {
                64int
            },
            is_memory_image(bytes@, self.words()),
    {
        let mut words: Vec<u32> = Vec::new();
        push_matrix(&mut words, &self.transform);
        match &self.jitter {
            Some(jitter) => {
                let mut k: usize = 0;
                while k < 4
                    invariant
                        k <= 4,
                        words@ == matrix_words(self.transform) + jitter@.take(k as int),
                    decreases 4 - k,
                {
                    words.push(jitter[k]);
                    assert(jitter@.take(k + 1) =~= jitter@.take(k as int).push(jitter@[k as int]));
                    k = k + 1;
                }
                assert(jitter@.take(4) =~= jitter@);
            },
            None => {},
        }
        assert(words@ =~= self.words());
        words_to_bytes(words.as_slice())
    }
}

} // verus!
