//! The choice of the audio stream that is transcoded.
//!
//! A source that could not be opened has no stream to choose from. Of the
//! streams of a source only the audio streams count. Among them the
//! one with the highest declared bit rate is the best; among those of equal
//! bit rate, the one with the most channels; among those equal in both, the
//! one that comes first.

use vstd::prelude::*;
use crate::error::{Error, ErrorKind};

verus! {

/// The kind of data a stream carries.
#[derive(Clone, Copy, Debug, PartialEq, Eq, Structural)]
pub enum Medium {
    Audio,
    Video,
    Subtitle,
    Data,
    Attachment,
    Unknown,
}

/// What a source declares about one of its streams.
#[derive(Clone, Copy, Debug)]
pub struct StreamInfo {
    /// The index of the stream in its container.
    pub index: usize,
    pub medium: Medium,
    /// The declared bit rate, zero where none is declared.
    pub bit_rate: usize,
    /// The declared number of channels.
    pub channels: u32,
}

/// Whether `a` is to be preferred to `b` for what it declares.
pub open spec fn outranks(a: StreamInfo, b: StreamInfo) -> bool {
    a.bit_rate > b.bit_rate || (a.bit_rate == b.bit_rate && a.channels > b.channels)
}

/// Whether some stream carries audio.
pub open spec fn has_audio(streams: Seq<StreamInfo>) -> bool {
    exists|i: int| 0 <= i < streams.len() && (#[trigger] streams[i]).medium is Audio
}

/// Whether the stream at position `at` is the best audio stream: it carries
/// audio, it is preferred to every audio stream before it, and no audio
/// stream after it is preferred to it.
pub open spec fn is_best_audio(streams: Seq<StreamInfo>, at: int) -> bool {
    &&& 0 <= at < streams.len()
    &&& streams[at].medium is Audio
    &&& forall|j: int|
        0 <= j < at && (#[trigger] streams[j]).medium is Audio ==> outranks(streams[at], streams[j])
    &&& forall|j: int|
        at < j < streams.len() && (#[trigger] streams[j]).medium is Audio ==> !outranks(
            streams[j],
            streams[at],
        )
}

/// The best audio stream of the first `n` streams stays the best of the
/// first `n + 1` when the next stream is no audio stream or not preferred to
/// it.
proof fn lemma_best_audio_stays(streams: Seq<StreamInfo>, n: int, at: int)
    requires
        0 <= n < streams.len(),
        is_best_audio(streams.take(n), at),
        !(streams[n].medium is Audio && outranks(streams[n], streams[at])),
    ensures
        is_best_audio(streams.take(n + 1), at),
{
    let seen = streams.take(n);
    let more = streams.take(n + 1);
    assert forall|j: int| 0 <= j < at && (#[trigger] more[j]).medium is Audio implies outranks(
        more[at],
        more[j],
    ) by {
        assert(seen[j] == more[j]);
    }
    assert forall|j: int|
        at < j < more.len() && (#[trigger] more[j]).medium is Audio implies !outranks(
        more[j],
        more[at],
    ) by {
        if j < n {
            assert(seen[j] == more[j]);
        }
    }
}

/// An audio stream that is preferred to the best of the first `n` streams
/// is the best of the first `n + 1`; so is the first audio stream there is.
proof fn lemma_best_audio_moves(streams: Seq<StreamInfo>, n: int, before: Option<int>)
    requires
        0 <= n < streams.len(),
        streams[n].medium is Audio,
        match before {
            Some(at) => is_best_audio(streams.take(n), at) && outranks(streams[n], streams[at]),
            None => !has_audio(streams.take(n)),
        },
    ensures
        is_best_audio(streams.take(n + 1), n),
{
    let seen = streams.take(n);
    let more = streams.take(n + 1);
    assert forall|j: int| 0 <= j < n && (#[trigger] more[j]).medium is Audio implies outranks(
        more[n],
        more[j],
    ) by {
        assert(seen[j] == more[j]);
        match before {
            Some(at) => {
                if j < at {
                    assert(outranks(seen[at], seen[j]));
                } else if j > at {
                    assert(!outranks(seen[j], seen[at]));
                }
            },
            None => {},
        }
    }
}

/// The position of the best audio stream among `streams`.
///
/// A source without an audio stream has none.
pub fn best_audio_stream(streams: &Vec<StreamInfo>) -> (r: Result<usize, Error>)
    ensures
        r.is_ok() <==> has_audio(streams@),
        r matches Ok(at) ==> is_best_audio(streams@, at as int),
        r matches Err(e) ==> e.kind == ErrorKind::NoAudioStream && e.cause@
            == "the source has no audio stream"@,
{
    let mut best: Option<usize> = None;
    let mut i: usize = 0;
    while i < streams.len()
        invariant
            i <= streams.len(),
            best is None ==> !has_audio(streams@.take(i as int)),
            best matches Some(at) ==> is_best_audio(streams@.take(i as int), at as int),
        decreases streams.len() - i,
    {
        let s: StreamInfo = streams[i];
        let ghost seen = streams@.take(i as int);
        let ghost more = streams@.take(i + 1);
        match best {
            None => {
                if s.medium == Medium::Audio {
                    proof {
                        lemma_best_audio_moves(streams@, i as int, None);
                    }
                    best = Some(i);
                } else {
                    proof {
                        if has_audio(more) {
                            let j = choose|j: int|
                                0 <= j < more.len() && (#[trigger] more[j]).medium is Audio;
                            assert(seen[j] == more[j]);
                        }
                    }
                }
            },
            Some(at) => {
                let b: StreamInfo = streams[at];
                if s.medium == Medium::Audio && (s.bit_rate > b.bit_rate || (s.bit_rate
                    == b.bit_rate && s.channels > b.channels)) {
                    proof {
                        lemma_best_audio_moves(streams@, i as int, Some(at as int));
                    }
                    best = Some(i);
                } else {
                    proof {
                        lemma_best_audio_stays(streams@, i as int, at as int);
                    }
                }
            },
        }
        i = i + 1;
    }
    proof {
        assert(streams@.take(streams@.len() as int) =~= streams@);
    }
    match best {
        Some(at) => Ok(at),
        None => Err(Error::new(ErrorKind::NoAudioStream, "the source has no audio stream")),
    }
}

/// The stream to transcode, given what opening the source has brought: the
/// streams it declares, or the cause for which it could not be opened.
///
/// A source that could not be opened fails at the opening, with that cause.
/// A source without an audio stream fails at the choice.
pub fn select_stream(opened: &Result<Vec<StreamInfo>, String>) -> (r: Result<StreamInfo, Error>)
    ensures
        match *opened {
            Ok(streams) => {
                &&& r.is_ok() <==> has_audio(streams@)
                &&& r matches Ok(chosen) ==> exists|at: int|
                    is_best_audio(streams@, at) && streams@[at] == chosen
                &&& r matches Err(e) ==> e.kind == ErrorKind::NoAudioStream && e.cause@
                    == "the source has no audio stream"@
            },
            Err(cause) => r matches Err(e) && e.kind == ErrorKind::OpenInput && e.cause@
                == cause@,
        },
{
    match opened {
        Ok(streams) => match best_audio_stream(streams) {
            Ok(at) => Ok(streams[at]),
            Err(e) => Err(e),
        },
        Err(cause) => Err(Error::new(ErrorKind::OpenInput, cause.as_str())),
    }
}

/// The choice is determined: no two positions hold the best audio stream.
pub proof fn lemma_best_audio_is_unique(streams: Seq<StreamInfo>, a: int, b: int)
    requires
        is_best_audio(streams, a),
        is_best_audio(streams, b),
    ensures
        a == b,
{
    if a < b {
        assert(outranks(streams[b], streams[a]));
        assert(!outranks(streams[b], streams[a]));
    } else if b < a {
        assert(outranks(streams[a], streams[b]));
        assert(!outranks(streams[a], streams[b]));
    }
}

/// No audio stream is preferred to the best one.
pub proof fn lemma_best_audio_is_not_outranked(streams: Seq<StreamInfo>, at: int, j: int)
    requires
        is_best_audio(streams, at),
        0 <= j < streams.len(),
        streams[j].medium is Audio,
    ensures
        !outranks(streams[j], streams[at]),
{
    if j < at {
        assert(outranks(streams[at], streams[j]));
    }
}

} // verus!
