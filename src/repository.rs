use vstd::prelude::*;

use crate::cache::{entries, AudioCache};
use crate::error::ErrorKind;
use crate::fingerprint::{is_nan, Fingerprint, FingerprintView};
use crate::policy::{cacheable, is_cacheable};

verus! {

/// Where a request for audio stands.
#[derive(Clone, Copy, Debug, PartialEq, Eq, Structural)]
pub enum Stage {
    /// The cache has not been consulted yet.
    Start,
    /// The generator has been asked for audio.
    Generating,
    /// The processor has been asked to compress the generated audio.
    Encoding,
    /// The request is answered.
    Done,
}

/// What the outside world reports back to a request.
pub enum Event {
    /// The request is taken up.
    Begin,
    /// The generator produced audio.
    Generated,
    /// The generator failed.
    GenerationFailed,
    /// The processor compressed the generated audio into these bytes.
    Encoded(Vec<u8>),
    /// The processor failed to compress the generated audio.
    EncodingFailed,
}

/// What the request asks the outside world to do next.
#[derive(Debug)]
pub enum Action {
    /// Hand back the playable audio of these encoded bytes.
    Decode(Vec<u8>),
    /// Ask the generator for audio of the fingerprint's text, speaker and speed.
    Generate,
    /// Ask the processor to compress the generated audio.
    Compress,
    /// Hand back the generated audio as it is.
    ReturnGenerated,
    /// Hand back this error.
    Fail(ErrorKind),
}

/// An event, with bytes as sequences.
pub enum Signal {
    Begin,
    Generated,
    GenerationFailed,
    Encoded(Seq<u8>),
    EncodingFailed,
}

/// An action, with bytes as sequences.
pub enum Reply {
    Decode(Seq<u8>),
    Generate,
    Compress,
    ReturnGenerated,
    Fail(ErrorKind),
}

impl View for Event {
    type V = Signal;

    open spec fn view(&self) -> Signal {
        match self {
            Event::Begin => Signal::Begin,
            Event::Generated => Signal::Generated,
            Event::GenerationFailed => Signal::GenerationFailed,
            Event::Encoded(b) => Signal::Encoded(b@),
            Event::EncodingFailed => Signal::EncodingFailed,
        }
    }
}

impl View for Action {
    type V = Reply;

    open spec fn view(&self) -> Reply {
        match self {
            Action::Decode(b) => Reply::Decode(b@),
            Action::Generate => Reply::Generate,
            Action::Compress => Reply::Compress,
            Action::ReturnGenerated => Reply::ReturnGenerated,
            Action::Fail(e) => Reply::Fail(*e),
        }
    }
}

/// The cache contents that the repository can reach: every key is of a
/// cacheable text and a speed that is not NaN.
pub open spec fn cache_ok(c: Map<FingerprintView, Seq<u8>>) -> bool {
    forall|k: FingerprintView| #[trigger] c.contains_key(k) ==> cacheable(k.text) && !is_nan(k.speed)
}

/// Which events a request at a stage waits for.
pub open spec fn expects(stage: Stage, s: Signal) -> bool {
    match stage {
        Stage::Start => s is Begin,
        Stage::Generating => s is Generated || s is GenerationFailed,
        Stage::Encoding => s is Encoded || s is EncodingFailed,
        Stage::Done => false,
    }
}

/// One step of a request for `key`: from the cache contents, the stage and the
/// event, the new cache contents, the new stage and the action to take.
pub open spec fn transition(
    c: Map<FingerprintView, Seq<u8>>,
    stage: Stage,
    key: FingerprintView,
    s: Signal,
) -> (Map<FingerprintView, Seq<u8>>, Stage, Reply) {
    match (stage, s) {
        (Stage::Start, Signal::Begin) => if c.contains_key(key) {
            (c, Stage::Done, Reply::Decode(c[key]))
        } else {
            (c, Stage::Generating, Reply::Generate)
        },
        (Stage::Generating, Signal::GenerationFailed) => (
            c,
            Stage::Done,
            Reply::Fail(ErrorKind::SynthesisFailed),
        ),
        (Stage::Generating, Signal::Generated) => if cacheable(key.text) {
            (c, Stage::Encoding, Reply::Compress)
        } else {
            (c, Stage::Done, Reply::ReturnGenerated)
        },
        (Stage::Encoding, Signal::Encoded(b)) => (c.insert(key, b), Stage::Done, Reply::Decode(b)),
        (Stage::Encoding, Signal::EncodingFailed) => (c, Stage::Done, Reply::ReturnGenerated),
        // Not reached: a stage takes only the events it waits for.
        _ => (c, stage, Reply::Fail(ErrorKind::SynthesisFailed)),
    }
}

/// The state of one request: its fingerprint and its stage.
pub struct Request {
    fingerprint: Fingerprint,
    stage: Stage,
}

/// A request as its fingerprint's view and its stage.
pub struct RequestView {
    pub key: FingerprintView,
    pub stage: Stage,
}

impl View for Request {
    type V = RequestView;

    closed spec fn view(&self) -> RequestView {
        RequestView { key: self.fingerprint@, stage: self.stage }
    }
}

impl Request {
    /// Well-formed: the fingerprint is, and a request waits for the processor
    /// only for a cacheable text.
    pub open spec fn wf(&self) -> bool {
        self.fingerprint().wf() && (self@.stage == Stage::Encoding ==> cacheable(self@.key.text))
    }

    /// The fingerprint, as a spec value.
    pub closed spec fn fingerprint(&self) -> Fingerprint {
        self.fingerprint
    }

    /// A request for the audio of `fingerprint`, not yet taken up.
    pub fn new(fingerprint: Fingerprint) -> (r: Request)
        requires
            fingerprint.wf(),
        ensures
            r.wf(),
            r@ == (RequestView { key: fingerprint@, stage: Stage::Start }),
    {
        Request { fingerprint, stage: Stage::Start }
    }

    /// The fingerprint whose audio is requested.
    pub fn key(&self) -> (r: &Fingerprint)
        ensures
            r@ == self@.key,
            *r == self.fingerprint(),
    {
        &self.fingerprint
    }

    /// The stage the request has reached.
    pub fn stage(&self) -> (r: Stage)
        ensures
            r == self@.stage,
    {
        self.stage
    }

    /// Takes one event: consults or fills the cache, moves to the next stage,
    /// and says what is to be done. The cache is read on `Begin` and written
    /// on `Encoded` only, each time in this one call.
    pub fn step(&mut self, cache: &mut AudioCache, event: Event) -> (r: Action)
        requires
            old(self).wf(),
            expects(old(self)@.stage, event@),
        ensures
            final(self).wf(),
            final(self)@.key == old(self)@.key,
            cache_ok(entries(*old(cache))) ==> cache_ok(entries(*final(cache))),
            (entries(*final(cache)), final(self)@.stage, r@) == transition(
                entries(*old(cache)),
                old(self)@.stage,
                old(self)@.key,
                event@,
            ),
    {
        match event {
            Event::Begin => {
                match cache.lookup(&self.fingerprint) {
                    Some(bytes) => {
                        self.stage = Stage::Done;
                        Action::Decode(bytes)
                    },
                    None => {
                        self.stage = Stage::Generating;
                        Action::Generate
                    },
                }
            },
            Event::GenerationFailed => {
                self.stage = Stage::Done;
                Action::Fail(ErrorKind::SynthesisFailed)
            },
            Event::Generated => {
                if is_cacheable(&self.fingerprint.text()) {
                    self.stage = Stage::Encoding;
                    Action::Compress
                } else {
                    self.stage = Stage::Done;
                    Action::ReturnGenerated
                }
            },
            Event::Encoded(bytes) => {
                let key = self.fingerprint.duplicate();
                let kept = bytes.clone();
                cache.insert(key, kept);
                self.stage = Stage::Done;
                Action::Decode(bytes)
            },
            Event::EncodingFailed => {
                self.stage = Stage::Done;
                Action::ReturnGenerated
            },
        }
    }
}

} // verus!
