//! Limits shared by every part of the pipeline, and the startup validation
//! of a chunked request.

use vstd::prelude::*;

verus! {

/// Samples per second of every buffer in the pipeline. Every conversion from
/// seconds to samples goes through this one constant.
pub const SAMPLE_RATE: usize = 32000;

/// Longest duration, in seconds, that one call of the segment generator can
/// produce.
pub const MAX_CHUNK_SECS: usize = 30;

/// Why a chunked request is refused before any audio is generated.
#[derive(Clone, Copy, Debug, PartialEq, Eq, Structural)]
pub enum ConfigError {
    /// The chunk is longer than one generator call can produce.
    ChunkTooLarge { chunksize: usize },
    /// The overlap is not strictly smaller than the chunk.
    OverlapTooLarge { overlap: usize, chunksize: usize },
}

/// A chunk size and an overlap are acceptable when the chunk fits one
/// generator call and the overlap is strictly smaller than the chunk.
pub open spec fn chunking_valid(chunksize: nat, overlap: nat) -> bool {
    chunksize <= MAX_CHUNK_SECS && overlap < chunksize
}

/// The verdict of the validation: the first rule that is broken, if any.
pub open spec fn chunking_verdict(chunksize: usize, overlap: usize) -> Result<(), ConfigError> {
    if chunksize > MAX_CHUNK_SECS {
        Err(ConfigError::ChunkTooLarge { chunksize })
    } else if overlap >= chunksize {
        Err(ConfigError::OverlapTooLarge { overlap, chunksize })
    } else {
        Ok(())
    }
}

/// Checks a chunk size and an overlap, both in seconds.
pub fn validate_chunking(chunksize: usize, overlap: usize) -> (r: Result<(), ConfigError>)
    ensures
        r == chunking_verdict(chunksize, overlap),
        r is Ok <==> chunking_valid(chunksize as nat, overlap as nat),
{
    if chunksize > MAX_CHUNK_SECS {
        Err(ConfigError::ChunkTooLarge { chunksize })
    } else if overlap >= chunksize {
        Err(ConfigError::OverlapTooLarge { overlap, chunksize })
    } else {
        Ok(())
    }
}

/// Chunking changes nothing when the whole duration fits in one chunk.
pub open spec fn chunking_is_moot(total_secs: nat, chunksize: nat) -> bool {
    total_secs <= chunksize
}

/// Tells whether a chunked request would be served by a single generator
/// call anyway, which is worth a warning but is no error.
pub fn chunking_has_no_effect(total_secs: usize, chunksize: usize) -> (moot: bool)
    ensures
        moot == chunking_is_moot(total_secs as nat, chunksize as nat),
{
    total_secs <= chunksize
}

/// The overlap window, in samples, of an overlap given in seconds.
pub open spec fn window_samples(overlap: nat) -> nat {
    overlap * SAMPLE_RATE as nat
}

/// Converts an overlap in seconds to samples.
pub fn overlap_window(overlap: usize) -> (window: usize)
    requires
        window_samples(overlap as nat) <= usize::MAX,
    ensures
        window == window_samples(overlap as nat),
{
    overlap * SAMPLE_RATE
}

} // verus!
