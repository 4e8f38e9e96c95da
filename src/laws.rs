//! What holds of whole requests, and of several of them, stated over the
//! step function's specification.
use vstd::prelude::*;

use crate::error::ErrorKind;
use crate::fingerprint::{is_nan, FingerprintView};
use crate::policy::cacheable;
use crate::repository::{cache_ok, transition, Reply, Signal, Stage};

verus! {

/// The event that reports the generator's outcome.
pub open spec fn generation_signal(generated: bool) -> Signal {
    if generated {
        Signal::Generated
    } else {
        Signal::GenerationFailed
    }
}

/// The event that reports the processor's outcome.
pub open spec fn encoding_signal(encoded: Option<Seq<u8>>) -> Signal {
    match encoded {
        Some(b) => Signal::Encoded(b),
        None => Signal::EncodingFailed,
    }
}

/// A whole request for `key`, run from the start on cache contents `c`, when
/// the generator succeeds iff `generated` and the processor yields `encoded`:
/// the cache contents after it, its answer, and whether the generator was asked.
pub open spec fn run_request(
    c: Map<FingerprintView, Seq<u8>>,
    key: FingerprintView,
    generated: bool,
    encoded: Option<Seq<u8>>,
) -> (Map<FingerprintView, Seq<u8>>, Reply, bool) {
    let (c1, s1, a1) = transition(c, Stage::Start, key, Signal::Begin);
    if s1 == Stage::Done {
        (c1, a1, false)
    } else {
        let (c2, s2, a2) = transition(c1, s1, key, generation_signal(generated));
        if s2 == Stage::Done {
            (c2, a2, true)
        } else {
            let (c3, s3, a3) = transition(c2, s2, key, encoding_signal(encoded));
            (c3, a3, true)
        }
    }
}

/// Requests for `key` run one after another, with the outside outcomes
/// `outcomes`: the cache contents after them and how often the generator
/// was asked.
pub open spec fn run_requests(
    c: Map<FingerprintView, Seq<u8>>,
    key: FingerprintView,
    outcomes: Seq<(bool, Option<Seq<u8>>)>,
) -> (Map<FingerprintView, Seq<u8>>, nat)
    decreases outcomes.len(),
{
    if outcomes.len() == 0 {
        (c, 0)
    } else {
        let (c1, _a, asked) = run_request(c, key, outcomes[0].0, outcomes[0].1);
        let (c2, n) = run_requests(c1, key, outcomes.drop_first());
        (c2, n + if asked {
            1nat
        } else {
            0nat
        })
    }
}

/// No step of any request puts into the cache a key of a text that is not
/// cacheable, or of a NaN speed.
pub proof fn lemma_step_keeps_cache_ok(
    c: Map<FingerprintView, Seq<u8>>,
    stage: Stage,
    key: FingerprintView,
    s: Signal,
)
    requires
        cache_ok(c),
        !is_nan(key.speed),
        stage == Stage::Encoding ==> cacheable(key.text),
    ensures
        cache_ok(transition(c, stage, key, s).0),
        transition(c, stage, key, s).1 == Stage::Encoding ==> cacheable(key.text),
{
}

/// Once a cacheable fingerprint's audio has been generated, encoded and
/// inserted, a later request for an equal fingerprint answers from the cache
/// with the same bytes and does not ask the generator.
pub proof fn lemma_cache_hit_skips_generation(
    c: Map<FingerprintView, Seq<u8>>,
    key: FingerprintView,
    b: Seq<u8>,
    generated: bool,
    encoded: Option<Seq<u8>>,
)
    requires
        cacheable(key.text),
        !c.contains_key(key),
    ensures
        run_request(c, key, true, Some(b)) == (c.insert(key, b), Reply::Decode(b), true),
        run_request(c.insert(key, b), key, generated, encoded) == (
            c.insert(key, b),
            Reply::Decode(b),
            false,
        ),
{
}

/// A request for a text that is not cacheable always asks the generator and
/// leaves the cache as it was.
pub proof fn lemma_uncacheable_always_generates(
    c: Map<FingerprintView, Seq<u8>>,
    key: FingerprintView,
    generated: bool,
    encoded: Option<Seq<u8>>,
)
    requires
        cache_ok(c),
        !cacheable(key.text),
    ensures
        run_request(c, key, generated, encoded).0 == c,
        run_request(c, key, generated, encoded).2,
{
    assert(!c.contains_key(key));
}

/// However many requests for a text that is not cacheable run in a row, each
/// one asks the generator, and the cache never changes.
pub proof fn lemma_uncacheable_repeated(
    c: Map<FingerprintView, Seq<u8>>,
    key: FingerprintView,
    outcomes: Seq<(bool, Option<Seq<u8>>)>,
)
    requires
        cache_ok(c),
        !cacheable(key.text),
    ensures
        run_requests(c, key, outcomes) == (c, outcomes.len()),
    decreases outcomes.len(),
{
    if outcomes.len() > 0 {
        lemma_uncacheable_always_generates(c, key, outcomes[0].0, outcomes[0].1);
        lemma_uncacheable_repeated(c, key, outcomes.drop_first());
    }
}

/// Answering from the cache reads it without using it up: two requests in a
/// row for a cached fingerprint give the same bytes and leave the cache as it
/// was.
pub proof fn lemma_cached_answer_repeatable(
    c: Map<FingerprintView, Seq<u8>>,
    key: FingerprintView,
    g1: bool,
    e1: Option<Seq<u8>>,
    g2: bool,
    e2: Option<Seq<u8>>,
)
    requires
        c.contains_key(key),
    ensures
        run_request(c, key, g1, e1) == (c, Reply::Decode(c[key]), false),
        run_request(run_request(c, key, g1, e1).0, key, g2, e2) == run_request(c, key, g1, e1),
{
}

/// When the processor fails for a cacheable fingerprint, the request still
/// succeeds with the generated audio and the cache is left as it was.
pub proof fn lemma_encoding_failure_falls_back(c: Map<FingerprintView, Seq<u8>>, key: FingerprintView)
    requires
        cacheable(key.text),
        !c.contains_key(key),
    ensures
        run_request(c, key, true, None) == (c, Reply::ReturnGenerated, true),
{
}

/// The cache contents after the encoded results `bs` of concurrent requests
/// for `key` are inserted in turn.
pub open spec fn insert_in_turn(
    c: Map<FingerprintView, Seq<u8>>,
    key: FingerprintView,
    bs: Seq<Seq<u8>>,
) -> Map<FingerprintView, Seq<u8>>
    decreases bs.len(),
{
    if bs.len() == 0 {
        c
    } else {
        insert_in_turn(c, key, bs.drop_last()).insert(key, bs.last())
    }
}

/// Concurrent requests for one uncached, cacheable fingerprint all miss, all
/// ask the generator and the processor, and each answers with the bytes it
/// encoded, whatever the cache holds by then; after all of them have inserted,
/// the cache holds exactly one entry for the fingerprint, the last one written,
/// and nothing else has changed.
pub proof fn lemma_concurrent_misses_converge(
    c: Map<FingerprintView, Seq<u8>>,
    key: FingerprintView,
    bs: Seq<Seq<u8>>,
)
    requires
        cacheable(key.text),
        !c.contains_key(key),
        bs.len() > 0,
    ensures
        transition(c, Stage::Start, key, Signal::Begin) == (c, Stage::Generating, Reply::Generate),
        transition(c, Stage::Generating, key, Signal::Generated) == (
            c,
            Stage::Encoding,
            Reply::Compress,
        ),
        forall|i: int, m: Map<FingerprintView, Seq<u8>>|
            0 <= i < bs.len() ==> #[trigger] transition(m, Stage::Encoding, key, Signal::Encoded(bs[i]))
                == (m.insert(key, bs[i]), Stage::Done, Reply::Decode(bs[i])),
        insert_in_turn(c, key, bs).dom() == c.dom().insert(key),
        insert_in_turn(c, key, bs)[key] == bs.last(),
        insert_in_turn(c, key, bs).remove(key) == c.remove(key),
    decreases bs.len(),
{
    if bs.len() > 1 {
        lemma_concurrent_misses_converge(c, key, bs.drop_last());
        let prev = insert_in_turn(c, key, bs.drop_last());
        assert(prev.insert(key, bs.last()).dom() =~= c.dom().insert(key));
        assert(prev.insert(key, bs.last()).remove(key) =~= prev.remove(key));
    } else {
        assert(insert_in_turn(c, key, bs.drop_last()) == c);
        assert(c.insert(key, bs.last()).dom() =~= c.dom().insert(key));
        assert(c.insert(key, bs.last()).remove(key) =~= c.remove(key));
    }
}

/// A request whose generator fails answers with the synthesis error and
/// leaves the cache as it was.
pub proof fn lemma_generation_failure_propagates(
    c: Map<FingerprintView, Seq<u8>>,
    key: FingerprintView,
    encoded: Option<Seq<u8>>,
)
    requires
        !c.contains_key(key),
    ensures
        run_request(c, key, false, encoded) == (c, Reply::Fail(ErrorKind::SynthesisFailed), true),
{
}

} // verus!
