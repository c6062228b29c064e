//! Video decoders. The Bik decoder is backed by ffmpeg, which is not built for
//! the Switch, so this target registers no decoders and plays no movies.

use vstd::prelude::*;

verus! {

pub fn register_opengb_video_decoders() {
}

} // verus!
