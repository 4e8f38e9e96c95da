use std::sync::{Arc, Mutex};

use seitai::cache::AudioCache;
use seitai::error::ErrorKind;
use seitai::fingerprint::Fingerprint;
use seitai::repository::{Action, Event, Request, Stage};

/// A stand-in generator: audio is the text's bytes followed by the speaker's,
/// and every call is counted.
struct Generator {
    calls: usize,
    fails: bool,
}

impl Generator {
    fn generate(&mut self, fingerprint: &Fingerprint) -> Result<Vec<u8>, ErrorKind> {
        self.calls += 1;
        if self.fails {
            return Err(ErrorKind::SynthesisFailed);
        }
        let mut audio = fingerprint.text().as_bytes().to_vec();
        audio.extend_from_slice(fingerprint.speaker().as_bytes());
        Ok(audio)
    }
}

/// A stand-in processor: encoding reverses the bytes, decoding reverses them back.
struct Processor {
    fails: bool,
}

impl Processor {
    fn compress(&self, raw: &[u8]) -> Result<Vec<u8>, ErrorKind> {
        if self.fails {
            return Err(ErrorKind::EncodingFailed);
        }
        Ok(raw.iter().rev().copied().collect())
    }

    fn raw(&self, encoded: &[u8]) -> Vec<u8> {
        encoded.iter().rev().copied().collect()
    }
}

/// Runs one request to its end against the stand-ins.
fn get(
    cache: &mut AudioCache,
    generator: &mut Generator,
    processor: &Processor,
    fingerprint: Fingerprint,
) -> Result<Vec<u8>, ErrorKind> {
    let mut request = Request::new(fingerprint);
    let mut event = Event::Begin;
    let mut generated: Vec<u8> = Vec::new();
    loop {
        match request.step(cache, event) {
            Action::Decode(bytes) => return Ok(processor.raw(&bytes)),
            Action::Generate => {
                event = match generator.generate(request.key()) {
                    Ok(audio) => {
                        generated = audio;
                        Event::Generated
                    }
                    Err(_) => Event::GenerationFailed,
                }
            }
            Action::Compress => {
                event = match processor.compress(&generated) {
                    Ok(bytes) => Event::Encoded(bytes),
                    Err(_) => Event::EncodingFailed,
                }
            }
            Action::ReturnGenerated => return Ok(generated),
            Action::Fail(e) => return Err(e),
        }
    }
}

fn fp(text: &str) -> Fingerprint {
    Fingerprint::new(text.to_string(), "speaker-1".to_string(), 1.0f32.to_bits()).unwrap()
}

#[test]
fn cacheable_text_is_generated_once() {
    let mut cache = AudioCache::new();
    let mut generator = Generator { calls: 0, fails: false };
    let processor = Processor { fails: false };
    let first = get(&mut cache, &mut generator, &processor, fp("CODE")).unwrap();
    assert_eq!(first, b"CODEspeaker-1".to_vec());
    assert_eq!(generator.calls, 1);
    assert_eq!(cache.len(), 1);
    let second = get(&mut cache, &mut generator, &processor, fp("CODE")).unwrap();
    assert_eq!(second, first);
    assert_eq!(generator.calls, 1);
    assert_eq!(cache.len(), 1);
}

#[test]
fn uncacheable_text_is_always_generated() {
    let mut cache = AudioCache::new();
    let mut generator = Generator { calls: 0, fails: false };
    let processor = Processor { fails: false };
    for round in 1..=20 {
        let audio = get(&mut cache, &mut generator, &processor, fp("Hello there")).unwrap();
        assert_eq!(audio, b"Hello therespeaker-1".to_vec());
        assert_eq!(generator.calls, round);
        assert_eq!(cache.len(), 0);
    }
}

#[test]
fn cached_entry_decodes_repeatedly() {
    let mut cache = AudioCache::new();
    let mut generator = Generator { calls: 0, fails: false };
    let processor = Processor { fails: false };
    get(&mut cache, &mut generator, &processor, fp("URL")).unwrap();
    let a = get(&mut cache, &mut generator, &processor, fp("URL")).unwrap();
    let b = get(&mut cache, &mut generator, &processor, fp("URL")).unwrap();
    assert_eq!(a, b);
    assert_eq!(a, b"URLspeaker-1".to_vec());
    assert_eq!(generator.calls, 1);
    let stored = cache.lookup(&fp("URL")).unwrap();
    assert_eq!(stored, b"1-rekaepsLRU".to_vec());
    assert_eq!(cache.lookup(&fp("URL")), Some(stored));
}

#[test]
fn encoding_failure_returns_generated_audio_uncached() {
    let mut cache = AudioCache::new();
    let mut generator = Generator { calls: 0, fails: false };
    let processor = Processor { fails: true };
    let audio = get(&mut cache, &mut generator, &processor, fp("CODE")).unwrap();
    assert_eq!(audio, b"CODEspeaker-1".to_vec());
    assert_eq!(cache.len(), 0);
    assert_eq!(cache.lookup(&fp("CODE")), None);
    get(&mut cache, &mut generator, &processor, fp("CODE")).unwrap();
    assert_eq!(generator.calls, 2);
}

#[test]
fn generation_failure_propagates() {
    let mut cache = AudioCache::new();
    let mut generator = Generator { calls: 0, fails: true };
    let processor = Processor { fails: false };
    assert_eq!(
        get(&mut cache, &mut generator, &processor, fp("CODE")),
        Err(ErrorKind::SynthesisFailed)
    );
    assert_eq!(cache.len(), 0);
}

#[test]
fn interleaved_misses_leave_one_entry() {
    let mut cache = AudioCache::new();
    let mut requests: Vec<Request> = (0..5).map(|_| Request::new(fp("CODE"))).collect();
    for request in requests.iter_mut() {
        assert!(matches!(request.step(&mut cache, Event::Begin), Action::Generate));
    }
    for request in requests.iter_mut() {
        assert!(matches!(request.step(&mut cache, Event::Generated), Action::Compress));
        assert_eq!(request.stage(), Stage::Encoding);
    }
    for (i, request) in requests.iter_mut().enumerate() {
        let bytes = vec![i as u8; 3];
        match request.step(&mut cache, Event::Encoded(bytes.clone())) {
            Action::Decode(got) => assert_eq!(got, bytes),
            other => panic!("unexpected {:?}", other),
        }
        assert_eq!(request.stage(), Stage::Done);
    }
    assert_eq!(cache.len(), 1);
    assert_eq!(cache.lookup(&fp("CODE")), Some(vec![4u8; 3]));
}

#[test]
fn concurrent_requests_all_succeed() {
    let cache = Arc::new(Mutex::new(AudioCache::new()));
    let runtime = tokio::runtime::Builder::new_multi_thread().worker_threads(4).build().unwrap();
    let results = runtime.block_on(async {
        let mut handles = Vec::new();
        for _ in 0..16 {
            let cache = Arc::clone(&cache);
            handles.push(tokio::spawn(async move {
                let mut generator = Generator { calls: 0, fails: false };
                let processor = Processor { fails: false };
                let mut request = Request::new(fp("CODE"));
                let mut event = Event::Begin;
                let mut generated = Vec::new();
                loop {
                    let action = request.step(&mut cache.lock().unwrap(), event);
                    match action {
                        Action::Decode(bytes) => return processor.raw(&bytes),
                        Action::Generate => {
                            tokio::task::yield_now().await;
                            generated = generator.generate(request.key()).unwrap();
                            event = Event::Generated;
                        }
                        Action::Compress => {
                            tokio::task::yield_now().await;
                            event = Event::Encoded(processor.compress(&generated).unwrap());
                        }
                        Action::ReturnGenerated => return generated,
                        Action::Fail(e) => panic!("unexpected {:?}", e),
                    }
                }
            }));
        }
        let mut results = Vec::new();
        for handle in handles {
            results.push(handle.await.unwrap());
        }
        results
    });
    assert_eq!(results.len(), 16);
    for audio in results {
        assert_eq!(audio, b"CODEspeaker-1".to_vec());
    }
    let cache = cache.lock().unwrap();
    assert_eq!(cache.len(), 1);
    assert_eq!(cache.lookup(&fp("CODE")), Some(b"1-rekaepsEDOC".to_vec()));
}

#[test]
fn new_cache_is_empty_and_insert_replaces() {
    let mut cache = AudioCache::new();
    assert_eq!(cache.len(), 0);
    assert_eq!(cache.lookup(&fp("CODE")), None);
    cache.insert(fp("CODE"), vec![1, 2]);
    cache.insert(fp("URL"), vec![3]);
    assert_eq!(cache.len(), 2);
    cache.insert(fp("CODE"), vec![9]);
    assert_eq!(cache.len(), 2);
    assert_eq!(cache.lookup(&fp("CODE")), Some(vec![9]));
    assert_eq!(cache.lookup(&fp("URL")), Some(vec![3]));
    let other = Fingerprint::new("CODE".to_string(), "speaker-2".to_string(), 1.0f32.to_bits()).unwrap();
    assert_eq!(cache.lookup(&other), None);
}
