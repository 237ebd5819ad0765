//! The error kinds of the pipeline and their one-line diagnostics.

use vstd::prelude::*;
use vstd::string::StringExecFns;
use crate::text::{flat, one_line, push_one_line};

verus! {

/// The stage of a run at which something went wrong.
#[derive(Clone, Copy, Debug, PartialEq, Eq, Structural)]
pub enum ErrorKind {
    /// The source is missing, unreadable or no known container.
    OpenInput,
    /// The source holds no audio track.
    NoAudioStream,
    /// No decoder for the track, or its parameters are unusable.
    DecoderInit,
    /// No encoder for the target codec, or no agreement on its parameters.
    EncoderInit,
    /// The filter graph could not be built or validated.
    FilterGraph,
    /// The decoder failed on a packet.
    Decode,
    /// The encoder failed on a frame.
    Encode,
    /// The container writer failed.
    Mux,
    /// Connecting, authenticating or sending to the server failed.
    Network,
}

impl ErrorKind {
    /// Whether the kind belongs to setup: such a failure ends the run before
    /// any output byte exists.
    pub open spec fn setup(self) -> bool {
        self is OpenInput || self is NoAudioStream || self is DecoderInit || self is EncoderInit
            || self is FilterGraph
    }

    /// The name of the stage, as diagnostics show it.
    pub open spec fn stage_name(self) -> Seq<char> {
        match self {
            ErrorKind::OpenInput => "open input"@,
            ErrorKind::NoAudioStream => "find audio stream"@,
            ErrorKind::DecoderInit => "decoder init"@,
            ErrorKind::EncoderInit => "encoder init"@,
            ErrorKind::FilterGraph => "filter graph"@,
            ErrorKind::Decode => "decode"@,
            ErrorKind::Encode => "encode"@,
            ErrorKind::Mux => "mux"@,
            ErrorKind::Network => "network"@,
        }
    }

    /// The process exit code of the kind.
    pub open spec fn code(self) -> int {
        match self {
            ErrorKind::OpenInput => 1,
            ErrorKind::NoAudioStream => 2,
            ErrorKind::DecoderInit => 3,
            ErrorKind::EncoderInit => 4,
            ErrorKind::FilterGraph => 5,
            ErrorKind::Decode => 6,
            ErrorKind::Encode => 7,
            ErrorKind::Mux => 8,
            ErrorKind::Network => 9,
        }
    }

    /// Whether a failure of this kind happens during setup.
    pub fn is_setup(&self) -> (b: bool)
        ensures
            b == self.setup(),
    {
        match self {
            ErrorKind::OpenInput => true,
            ErrorKind::NoAudioStream => true,
            ErrorKind::DecoderInit => true,
            ErrorKind::EncoderInit => true,
            ErrorKind::FilterGraph => true,
            ErrorKind::Decode => false,
            ErrorKind::Encode => false,
            ErrorKind::Mux => false,
            ErrorKind::Network => false,
        }
    }

    /// The name of the stage.
    pub fn stage(&self) -> (s: &'static str)
        ensures
            s@ == self.stage_name(),
    {
        match self {
            ErrorKind::OpenInput => "open input",
            ErrorKind::NoAudioStream => "find audio stream",
            ErrorKind::DecoderInit => "decoder init",
            ErrorKind::EncoderInit => "encoder init",
            ErrorKind::FilterGraph => "filter graph",
            ErrorKind::Decode => "decode",
            ErrorKind::Encode => "encode",
            ErrorKind::Mux => "mux",
            ErrorKind::Network => "network",
        }
    }

    /// The exit code a process ends with after a failure of this kind.
    pub fn exit_code(&self) -> (c: u8)
        ensures
            c == self.code(),
    {
        match self {
            ErrorKind::OpenInput => 1,
            ErrorKind::NoAudioStream => 2,
            ErrorKind::DecoderInit => 3,
            ErrorKind::EncoderInit => 4,
            ErrorKind::FilterGraph => 5,
            ErrorKind::Decode => 6,
            ErrorKind::Encode => 7,
            ErrorKind::Mux => 8,
            ErrorKind::Network => 9,
        }
    }
}

/// A failure: the stage it happened at and the underlying cause.
#[derive(Clone, Debug)]
pub struct Error {
    pub kind: ErrorKind,
    pub cause: String,
}

/// The diagnostic of a failure: the stage, a colon and a blank, then the
/// cause on one line.
pub open spec fn diagnostic(kind: ErrorKind, cause: Seq<char>) -> Seq<char> {
    kind.stage_name() + ": "@ + one_line(cause)
}

impl Error {
    /// A failure of the given kind.
    pub fn new(kind: ErrorKind, cause: &str) -> (e: Error)
        ensures
            e.kind == kind,
            e.cause@ == cause@,
    {
        Error { kind, cause: String::from_str(cause) }
    }

    /// The one-line diagnostic shown to the user.
    pub fn message(&self) -> (out: String)
        ensures
            out@ == diagnostic(self.kind, self.cause@),
    {
        let mut out = String::from_str(self.kind.stage());
        out.append(": ");
        push_one_line(&mut out, self.cause.as_str());
        out
    }
}

/// Every kind has an exit code of its own, and none is the code of success.
pub proof fn lemma_exit_codes_distinct(a: ErrorKind, b: ErrorKind)
    ensures
        1 <= a.code() <= 9,
        a.code() == b.code() ==> a == b,
{
}

/// A diagnostic never spans more than one line.
pub proof fn lemma_diagnostic_is_one_line(kind: ErrorKind, cause: Seq<char>)
    ensures
        forall|i: int|
            0 <= i < diagnostic(kind, cause).len() ==> diagnostic(kind, cause)[i] != '\n'
                && diagnostic(kind, cause)[i] != '\r',
{
    reveal_strlit("open input");
    reveal_strlit("find audio stream");
    reveal_strlit("decoder init");
    reveal_strlit("encoder init");
    reveal_strlit("filter graph");
    reveal_strlit("decode");
    reveal_strlit("encode");
    reveal_strlit("mux");
    reveal_strlit("network");
    reveal_strlit(": ");
    let head = kind.stage_name() + ": "@;
    assert forall|i: int| 0 <= i < head.len() implies head[i] != '\n' && head[i] != '\r' by {
        if i < kind.stage_name().len() {
            assert(head[i] == kind.stage_name()[i]);
        } else {
            assert(head[i] == ": "@[i - kind.stage_name().len()]);
        }
    }
    let whole = diagnostic(kind, cause);
    assert forall|i: int| 0 <= i < whole.len() implies whole[i] != '\n' && whole[i] != '\r' by {
        if i < head.len() {
            assert(whole[i] == head[i]);
        } else {
            assert(whole[i] == flat(cause[i - head.len()]));
        }
    }
}

} // verus!
