use microswitch::config::BankConfig;
use microswitch::config::BankRef;
use microswitch::config::BankSampleRef;
use microswitch::config::SampleConfig;
use microswitch::error::SampleLoadError;
use microswitch::sample_loader::DecodeOutcome;
use microswitch::sample_loader::DiskSampleLoader;
use microswitch::sample_loader::EmbeddedSampleLoader;
use microswitch::sample_loader::LoadStep;
use microswitch::sample_loader::LoadedSample;
use microswitch::sample_loader::SampleLoader;

fn sample_config(file: &str, file_resolved: Option<&str>) -> SampleConfig {
    SampleConfig {
        id: "sample".to_string(),
        file: file.to_string(),
        bank_sample_ref: BankSampleRef::default(),
        file_resolved: file_resolved.map(|path| path.to_string()),
    }
}

#[test]
fn get_before_any_load_finds_nothing() {
    let loader = DiskSampleLoader::new();
    assert_eq!(loader.len(), 0);
    assert_eq!(loader.get(&sample_config("a.wav", Some("/samples/a.wav"))), None);
}

#[test]
fn a_sample_is_decoded_once() {
    let mut loader = DiskSampleLoader::new();
    let a = sample_config("a.wav", Some("/samples/a.wav"));

    // the first load asks for the file to be decoded
    assert_eq!(loader.load_sample(&a), LoadStep::Decode { path: "/samples/a.wav".to_string() });
    assert_eq!(loader.sample_decoded(&a, DecodeOutcome::Decoded), Ok(LoadedSample { slot: 0 }));
    assert_eq!(loader.len(), 1);

    // the second load of the same descriptor asks for nothing
    assert_eq!(loader.load_sample(&a), LoadStep::Loaded);
    assert_eq!(loader.get(&a), Some(LoadedSample { slot: 0 }));

    // a decoded sample that is reported twice keeps its slot
    assert_eq!(loader.sample_decoded(&a, DecodeOutcome::Decoded), Ok(LoadedSample { slot: 0 }));
    assert_eq!(loader.len(), 1);
}

#[test]
fn samples_are_cached_by_the_file_they_name() {
    let mut loader = DiskSampleLoader::new();
    let a = sample_config("a.wav", Some("/samples/a.wav"));
    let b = sample_config("b.wav", Some("/samples/b.wav"));
    // the same file as `a`, named by a second sample
    let a_again = sample_config("a.wav", Some("/elsewhere/a.wav"));

    assert_eq!(loader.sample_decoded(&a, DecodeOutcome::Decoded), Ok(LoadedSample { slot: 0 }));
    assert_eq!(loader.load_sample(&b), LoadStep::Decode { path: "/samples/b.wav".to_string() });
    assert_eq!(loader.sample_decoded(&b, DecodeOutcome::Decoded), Ok(LoadedSample { slot: 1 }));
    assert_eq!(loader.load_sample(&a_again), LoadStep::Loaded);
    assert_eq!(loader.get(&a_again), Some(LoadedSample { slot: 0 }));
    assert_eq!(loader.get(&b), Some(LoadedSample { slot: 1 }));
    assert_eq!(loader.get(&sample_config("c.wav", None)), None);
}

#[test]
fn a_file_that_cannot_be_read_gives_an_io_error_with_its_path() {
    let mut loader = DiskSampleLoader::new();
    let a = sample_config("a.wav", Some("/samples/a.wav"));
    let result = loader
        .sample_decoded(&a, DecodeOutcome::Unreadable { source: "No such file".to_string() });
    let error = result.unwrap_err();
    assert_eq!(
        error,
        SampleLoadError::IO { path: "/samples/a.wav".to_string(), source: "No such file".to_string() }
    );
    assert_eq!(error.message(), "Failed to read sample (/samples/a.wav): No such file");
    // nothing was loaded
    assert_eq!(loader.get(&a), None);
    assert_eq!(loader.load_sample(&a), LoadStep::Decode { path: "/samples/a.wav".to_string() });
}

#[test]
fn a_file_that_cannot_be_decoded_gives_a_decode_error_with_its_path() {
    let mut loader = DiskSampleLoader::new();
    let a = sample_config("a.wav", Some("/samples/a.wav"));
    let result = loader.sample_decoded(
        &a,
        DecodeOutcome::Undecodable { source: "Unrecognized format".to_string() },
    );
    let error = result.unwrap_err();
    assert_eq!(
        error,
        SampleLoadError::Decode {
            path: "/samples/a.wav".to_string(),
            source: "Unrecognized format".to_string(),
        }
    );
    assert_eq!(error.message(), "Failed to decode sample (/samples/a.wav): Unrecognized format");
    assert_eq!(loader.len(), 0);
}

#[test]
fn embedded_loader_knows_the_embedded_samples() {
    let loader = EmbeddedSampleLoader::new(vec!["b.wav".to_string(), "a.wav".to_string()]);
    assert_eq!(loader.load_sample(&sample_config("a.wav", None)), Ok(()));
    assert_eq!(loader.get(&sample_config("a.wav", None)), Some(LoadedSample { slot: 1 }));
    assert_eq!(loader.get(&sample_config("b.wav", None)), Some(LoadedSample { slot: 0 }));
    assert_eq!(loader.get(&sample_config("c.wav", None)), None);
}

#[test]
fn embedded_loader_reports_a_missing_sample() {
    let loader = EmbeddedSampleLoader::new(vec!["a.wav".to_string()]);
    let error = loader.load_sample(&sample_config("c.wav", None)).unwrap_err();
    assert_eq!(error, SampleLoadError::EmbeddedSampleMissing { path: "c.wav".to_string() });
    assert_eq!(error.message(), "Sample is missing from the embedded samples (c.wav)");

    let bank = BankConfig {
        id: "bank".to_string(),
        poly: false,
        samples: vec![
            sample_config("a.wav", None),
            sample_config("d.wav", None),
            sample_config("c.wav", None),
        ],
        bank_ref: BankRef::default(),
    };
    // the first missing sample of a bank is reported
    assert_eq!(
        loader.load_bank(&bank),
        Err(SampleLoadError::EmbeddedSampleMissing { path: "d.wav".to_string() })
    );
    let complete = BankConfig {
        id: "complete".to_string(),
        poly: false,
        samples: vec![sample_config("a.wav", None)],
        bank_ref: BankRef::default(),
    };
    assert_eq!(loader.load_bank(&complete), Ok(()));
    // the first bank with a missing sample gives the error
    assert_eq!(
        loader.load_banks(&vec![complete.clone(), bank, complete.clone()]),
        Err(SampleLoadError::EmbeddedSampleMissing { path: "d.wav".to_string() })
    );
    assert_eq!(loader.load_banks(&vec![complete.clone(), complete]), Ok(()));
    assert_eq!(loader.load_banks(&vec![]), Ok(()));
}
