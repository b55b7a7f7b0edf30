//! The sample cache: which samples are decoded and held in memory, by the
//! path under which the configuration names them.
//!
//! Reading and decoding audio is left to the caller. A loader here keeps the
//! book: it says whether a sample still has to be decoded, records each
//! decoded sample under its key, and hands out the slot under which the
//! caller keeps the decoded buffer.

use crate::config::views;
use crate::config::BankConfig;
use crate::config::SampleConfig;
use crate::error::SampleLoadError;
use crate::error::SampleLoadErrorView;
use crate::text::first_where;
use crate::text::lemma_first_where;
use crate::text::lemma_first_where_is;
use crate::text::lemma_first_where_none;
use crate::text::str_eq;
use vstd::prelude::*;

verus! {

/// A sample that is decoded and held in memory: the slot of its buffer in
/// the store of the loader that loaded it.
#[derive(Debug, Copy, Clone, PartialEq, Eq, Hash, Structural)]
pub struct LoadedSample {
    pub slot: usize,
}

/// Whether the sample in a slot was loaded under `key`.
pub open spec fn loaded_under(keys: Seq<Seq<char>>, key: Seq<char>, slot: int) -> bool {
    keys[slot] == key
}

/// The slot that holds the sample loaded under `key`: the first one.
pub open spec fn slot_of(keys: Seq<Seq<char>>, key: Seq<char>) -> Option<int> {
    first_where(keys.len() as int, |slot: int| loaded_under(keys, key, slot))
}

/// The keys after a sample was decoded for `key`: one more slot, unless the
/// key has one already.
pub open spec fn with_loaded(keys: Seq<Seq<char>>, key: Seq<char>) -> Seq<Seq<char>> {
    if slot_of(keys, key) is Some {
        keys
    } else {
        keys.push(key)
    }
}

/// The slot of `key` among the keys of a loader.
fn find_slot(keys: &Vec<String>, key: &str) -> (found: Option<usize>)
    ensures
        match found {
            Some(slot) => slot_of(views(keys@), key@) == Some(slot as int) && slot < keys@.len(),
            None => slot_of(views(keys@), key@) is None,
        },
{
    let ghost holds = |slot: int| loaded_under(views(keys@), key@, slot);
    let mut slot: usize = 0;
    while slot < keys.len()
        invariant
            slot <= keys@.len(),
            holds == |slot: int| loaded_under(views(keys@), key@, slot),
            forall|j: int| 0 <= j < slot ==> !#[trigger] holds(j),
        decreases keys@.len() - slot,
    {
        if str_eq(keys[slot].as_str(), key) {
            proof {
                lemma_first_where_is(keys@.len() as int, holds, slot as int);
            }
            return Some(slot);
        }
        slot += 1;
    }
    proof {
        lemma_first_where_none(keys@.len() as int, holds);
    }
    None
}

/// A source of loaded samples, asked by the configuration of a sample.
pub trait SampleLoader {
    /// The keys of the loaded samples, by slot.
    spec fn keys(&self) -> Seq<Seq<char>>;

    /// The loaded sample that a configuration names, if it has been loaded.
    fn get(&self, sample_config: &SampleConfig) -> (found: Option<LoadedSample>)
        ensures
            match found {
                Some(loaded) => slot_of(self.keys(), sample_config@.file) == Some(
                    loaded.slot as int,
                ),
                None => slot_of(self.keys(), sample_config@.file) is None,
            },
    ;
}

/// What is left to do to have a sample loaded from disk.
#[derive(Debug, PartialEq, Eq)]
pub enum LoadStep {
    /// The sample is loaded already.
    Loaded,
    /// Read and decode the file at `path`, then report with `sample_decoded`.
    Decode { path: String },
}

/// How reading and decoding a sample file ended.
#[derive(Debug, PartialEq, Eq)]
pub enum DecodeOutcome {
    Decoded,
    /// The file could not be opened or read; `source` is the reader's report.
    Unreadable { source: String },
    /// The file is no audio that can be decoded; `source` is the decoder's
    /// report.
    Undecodable { source: String },
}

/// A loader of samples that are read from disk, each decoded once.
#[derive(Debug)]
pub struct DiskSampleLoader {
    /// The key of each loaded sample, by slot. No key occurs twice.
    loaded_samples: Vec<String>,
}

impl SampleLoader for DiskSampleLoader {
    closed spec fn keys(&self) -> Seq<Seq<char>> {
        views(self.loaded_samples@)
    }

    fn get(&self, sample_config: &SampleConfig) -> (found: Option<LoadedSample>) {
        match find_slot(&self.loaded_samples, sample_config.file.as_str()) {
            Some(slot) => Some(LoadedSample { slot }),
            None => None,
        }
    }
}

impl DiskSampleLoader {
    pub fn new() -> (loader: Self)
        ensures
            loader.keys() == Seq::<Seq<char>>::empty(),
    {
        let loader = DiskSampleLoader { loaded_samples: Vec::new() };
        assert(loader.keys() =~= Seq::<Seq<char>>::empty());
        loader
    }

    /// How many samples are loaded: the slot that the next one will get.
    pub fn len(&self) -> (len: usize)
        ensures
            len == self.keys().len(),
    {
        self.loaded_samples.len()
    }

    /// Says what is left to do to have the sample loaded: nothing where it
    /// is loaded already, else to decode its file.
    pub fn load_sample(&self, sample_config: &SampleConfig) -> (step: LoadStep)
        requires
            sample_config.file_resolved is Some,
        ensures
            match slot_of(self.keys(), sample_config@.file) {
                Some(_) => step == LoadStep::Loaded,
                None => step matches LoadStep::Decode { path } && Some(path@)
                    == sample_config@.file_resolved,
            },
    {
        let path = match &sample_config.file_resolved {
            Some(path) => path,
            None => {
                return LoadStep::Loaded;
            },
        };
        match find_slot(&self.loaded_samples, sample_config.file.as_str()) {
            Some(_) => LoadStep::Loaded,
            None => LoadStep::Decode { path: path.clone() },
        }
    }

    /// Records how decoding the file of a sample ended: a decoded sample gets
    /// a slot under its key, unless the key has one; a failure becomes the
    /// error that carries the path that was tried.
    pub fn sample_decoded(&mut self, sample_config: &SampleConfig, outcome: DecodeOutcome) -> (result:
        Result<LoadedSample, SampleLoadError>)
        requires
            sample_config.file_resolved is Some,
        ensures
            match outcome {
                DecodeOutcome::Decoded => {
                    &&& final(self).keys() == with_loaded(old(self).keys(), sample_config@.file)
                    &&& result matches Ok(loaded)
                    &&& Some(loaded.slot as int) == slot_of(
                        final(self).keys(),
                        sample_config@.file,
                    )
                },
                DecodeOutcome::Unreadable { source } => {
                    &&& final(self).keys() == old(self).keys()
                    &&& result matches Err(error)
                    &&& error@ == (SampleLoadErrorView::IO {
                        path: sample_config@.file_resolved->0,
                        source: source@,
                    })
                },
                DecodeOutcome::Undecodable { source } => {
                    &&& final(self).keys() == old(self).keys()
                    &&& result matches Err(error)
                    &&& error@ == (SampleLoadErrorView::Decode {
                        path: sample_config@.file_resolved->0,
                        source: source@,
                    })
                },
            },
    {
        let path = match &sample_config.file_resolved {
            Some(path) => path.clone(),
            None => String::new(),
        };
        match outcome {
            DecodeOutcome::Decoded => {
                match find_slot(&self.loaded_samples, sample_config.file.as_str()) {
                    Some(slot) => Ok(LoadedSample { slot }),
                    None => {
                        let slot = self.loaded_samples.len();
                        let ghost before = self.keys();
                        self.loaded_samples.push(sample_config.file.clone());
                        proof {
                            let key = sample_config@.file;
                            assert(self.keys() =~= before.push(key));
                            let unloaded = |slot: int| loaded_under(before, key, slot);
                            let holds = |slot: int| loaded_under(self.keys(), key, slot);
                            lemma_first_where(before.len() as int, unloaded);
                            assert forall|j: int| 0 <= j < slot implies !#[trigger] holds(j) by {
                                assert(!unloaded(j));
                            }
                            lemma_first_where_is(self.keys().len() as int, holds, slot as int);
                        }
                        Ok(LoadedSample { slot })
                    },
                }
            },
            DecodeOutcome::Unreadable { source } => Err(SampleLoadError::IO { path, source }),
            DecodeOutcome::Undecodable { source } => Err(SampleLoadError::Decode { path, source }),
        }
    }
}

/// A loader of samples that were embedded in the program and are all decoded
/// before the loader is made.
#[derive(Debug)]
pub struct EmbeddedSampleLoader {
    /// The key of each embedded sample, by slot.
    loaded_samples: Vec<String>,
}

impl SampleLoader for EmbeddedSampleLoader {
    closed spec fn keys(&self) -> Seq<Seq<char>> {
        views(self.loaded_samples@)
    }

    fn get(&self, sample_config: &SampleConfig) -> (found: Option<LoadedSample>) {
        match find_slot(&self.loaded_samples, sample_config.file.as_str()) {
            Some(slot) => Some(LoadedSample { slot }),
            None => None,
        }
    }
}

impl EmbeddedSampleLoader {
    /// A loader of the embedded samples with these keys, decoded in this
    /// order.
    pub fn new(samples: Vec<String>) -> (loader: Self)
        ensures
            loader.keys() == views(samples@),
    {
        EmbeddedSampleLoader { loaded_samples: samples }
    }

    /// Checks that the sample is among the embedded ones.
    pub fn load_sample(&self, sample_config: &SampleConfig) -> (result: Result<(), SampleLoadError>)
        ensures
            match slot_of(self.keys(), sample_config@.file) {
                Some(_) => result is Ok,
                None => result matches Err(error) && error@
                    == (SampleLoadErrorView::EmbeddedSampleMissing { path: sample_config@.file }),
            },
    {
        match find_slot(&self.loaded_samples, sample_config.file.as_str()) {
            Some(_) => Ok(()),
            None => Err(SampleLoadError::EmbeddedSampleMissing { path: sample_config.file.clone() }),
        }
    }

    /// Checks that every sample of a bank is among the embedded ones; the
    /// first that is not gives the error.
    pub fn load_bank(&self, bank_config: &BankConfig) -> (result: Result<(), SampleLoadError>)
        ensures
            match first_missing(self.keys(), bank_config@.samples) {
                Some(s) => result matches Err(error) && error@
                    == (SampleLoadErrorView::EmbeddedSampleMissing {
                    path: bank_config@.samples[s].file,
                }),
                None => result is Ok,
            },
    {
        let ghost missing = |s: int| slot_of(self.keys(), bank_config@.samples[s].file) is None;
        let mut sample_index: usize = 0;
        while sample_index < bank_config.samples.len()
            invariant
                sample_index <= bank_config.samples@.len(),
                missing == |s: int| slot_of(self.keys(), bank_config@.samples[s].file) is None,
                forall|j: int| 0 <= j < sample_index ==> !#[trigger] missing(j),
            decreases bank_config.samples@.len() - sample_index,
        {
            match self.load_sample(&bank_config.samples[sample_index]) {
                Ok(()) => {},
                Err(error) => {
                    proof {
                        lemma_first_where_is(
                            bank_config@.samples.len() as int,
                            missing,
                            sample_index as int,
                        );
                    }
                    return Err(error);
                },
            }
            sample_index += 1;
        }
        proof {
            lemma_first_where_none(bank_config@.samples.len() as int, missing);
        }
        Ok(())
    }
}

impl EmbeddedSampleLoader {
    /// Checks that every sample of every bank is among the embedded ones;
    /// the first that is not, in the first bank that has one, gives the
    /// error.
    pub fn load_banks(&self, bank_configs: &Vec<BankConfig>) -> (result: Result<(), SampleLoadError>)
        ensures
            match first_incomplete(self.keys(), views(bank_configs@)) {
                Some(b) => result matches Err(error) && error@
                    == (SampleLoadErrorView::EmbeddedSampleMissing {
                    path: bank_configs@[b]@.samples[first_missing(
                        self.keys(),
                        bank_configs@[b]@.samples,
                    )->0].file,
                }),
                None => result is Ok,
            },
    {
        let ghost incomplete = |b: int|
            first_missing(self.keys(), views(bank_configs@)[b].samples) is Some;
        let mut bank_index: usize = 0;
        while bank_index < bank_configs.len()
            invariant
                bank_index <= bank_configs@.len(),
                incomplete == |b: int|
                    first_missing(self.keys(), views(bank_configs@)[b].samples) is Some,
                forall|j: int| 0 <= j < bank_index ==> !#[trigger] incomplete(j),
            decreases bank_configs@.len() - bank_index,
        {
            match self.load_bank(&bank_configs[bank_index]) {
                Ok(()) => {},
                Err(error) => {
                    proof {
                        lemma_first_where_is(
                            bank_configs@.len() as int,
                            incomplete,
                            bank_index as int,
                        );
                    }
                    return Err(error);
                },
            }
            bank_index += 1;
        }
        proof {
            lemma_first_where_none(bank_configs@.len() as int, incomplete);
        }
        Ok(())
    }
}

/// The first bank of a list of which a sample is not among the loaded ones.
pub open spec fn first_incomplete(keys: Seq<Seq<char>>, banks: Seq<crate::config::BankConfigView>) -> Option<
    int,
> {
    first_where(banks.len() as int, |b: int| first_missing(keys, banks[b].samples) is Some)
}

/// The first sample of a list that is not among the loaded ones.
pub open spec fn first_missing(keys: Seq<Seq<char>>, samples: Seq<crate::config::SampleConfigView>) -> Option<
    int,
> {
    first_where(samples.len() as int, |s: int| slot_of(keys, samples[s].file) is None)
}

/// A loader that has loaded nothing finds nothing.
pub proof fn lemma_nothing_loaded_at_first(key: Seq<char>)
    ensures
        slot_of(Seq::<Seq<char>>::empty(), key) is None,
{
}

/// Once a sample has been decoded for a key, the key has a slot, the slots of
/// all keys loaded before are what they were, and decoding for the key again
/// changes nothing: a sample is decoded once.
pub proof fn lemma_loaded_once(keys: Seq<Seq<char>>, key: Seq<char>, other: Seq<char>)
    ensures
        slot_of(with_loaded(keys, key), key) is Some,
        with_loaded(with_loaded(keys, key), key) == with_loaded(keys, key),
        slot_of(keys, other) is Some ==> slot_of(with_loaded(keys, key), other) == slot_of(
            keys,
            other,
        ),
{
    let loaded = with_loaded(keys, key);
    let before = |slot: int| loaded_under(keys, key, slot);
    let after = |slot: int| loaded_under(loaded, key, slot);
    lemma_first_where(keys.len() as int, before);
    if slot_of(keys, key) is None {
        assert forall|j: int| 0 <= j < keys.len() implies !#[trigger] after(j) by {
            assert(!before(j));
        }
        lemma_first_where_is(loaded.len() as int, after, keys.len() as int);
    }
    let other_before = |slot: int| loaded_under(keys, other, slot);
    let other_after = |slot: int| loaded_under(loaded, other, slot);
    lemma_first_where(keys.len() as int, other_before);
    if slot_of(keys, other) is Some {
        let slot = slot_of(keys, other)->0;
        assert forall|j: int| 0 <= j < slot implies !#[trigger] other_after(j) by {
            assert(!other_before(j));
        }
        assert(other_after(slot));
        lemma_first_where_is(loaded.len() as int, other_after, slot);
    }
}

} // verus!
