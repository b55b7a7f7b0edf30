//! The configuration model: banks, samples and switches, cross-referenced by
//! dense numeric references.

use crate::error::ConfigError;
use crate::error::ConfigErrorView;
use crate::keys::Button;
use crate::keys::KeyCode;
use crate::keys::make_valid_gamepad_button_vec;
use crate::keys::make_valid_keyboard_button_vec;
use crate::keys::valid_button_names;
use crate::keys::valid_key_names;
use crate::text::first_where;
use crate::text::join;
use crate::text::joined;
use crate::text::last_where;
use crate::text::lemma_first_where;
use crate::text::lemma_first_where_agree;
use crate::text::lemma_first_where_is;
use crate::text::lemma_first_where_none;
use crate::text::lemma_last_where;
use crate::text::str_eq;
use crate::text::str_views;
use crate::text::option_view;
use std::collections::HashMap;
use std::path::PathBuf;
use vstd::std_specs::hash::group_hash_axioms;
use vstd::prelude::*;

verus! {

/// The position of a bank in the configuration.
#[derive(Debug, Copy, Clone, PartialEq, Eq, Hash, Structural)]
pub struct BankRef {
    pub bank_index: usize,
}

/// The position of a sample in its bank.
#[derive(Debug, Copy, Clone, PartialEq, Eq, Hash, Structural)]
pub struct SampleRef {
    pub sample_index: usize,
}

/// A sample by the position of its bank and its own position in that bank.
#[derive(Debug, Copy, Clone, PartialEq, Eq, Hash, Structural)]
pub struct BankSampleRef {
    pub bank: BankRef,
    pub sample: SampleRef,
}

/// The position of a switch in the configuration.
#[derive(Debug, Copy, Clone, PartialEq, Eq, Hash, Structural)]
pub struct SwitchRef {
    pub switch_index: usize,
}

impl Default for BankRef {
    fn default() -> (r: Self)
        ensures
            r.bank_index == 0,
    {
        BankRef { bank_index: 0 }
    }
}

impl Default for SampleRef {
    fn default() -> (r: Self)
        ensures
            r.sample_index == 0,
    {
        SampleRef { sample_index: 0 }
    }
}

impl Default for BankSampleRef {
    fn default() -> (r: Self)
        ensures
            r.bank.bank_index == 0,
            r.sample.sample_index == 0,
    {
        BankSampleRef { bank: BankRef { bank_index: 0 }, sample: SampleRef { sample_index: 0 } }
    }
}

impl Default for SwitchRef {
    fn default() -> (r: Self)
        ensures
            r.switch_index == 0,
    {
        SwitchRef { switch_index: 0 }
    }
}

/// One audio sample of a bank.
#[derive(Debug, PartialEq)]
pub struct SampleConfig {
    pub id: String,
    pub file: String,
    /// Where the sample stands; set when the configuration is resolved.
    pub bank_sample_ref: BankSampleRef,
    /// `file` relative to the configuration's own directory; absent when the
    /// configuration is embedded. Set when the configuration is resolved.
    pub file_resolved: Option<String>,
}

/// An ordered collection of samples.
#[derive(Debug, PartialEq)]
pub struct BankConfig {
    pub id: String,
    /// If true, do not mute other samples when playing a sample in this bank.
    pub poly: bool,
    pub samples: Vec<SampleConfig>,
    /// Where the bank stands; set when the configuration is resolved.
    pub bank_ref: BankRef,
}

/// A gamepad button that triggers a switch, on one device or on any.
#[derive(Debug, PartialEq)]
pub struct Gamepad {
    pub device_id: Option<usize>,
    /// One of the known gamepad button names.
    pub button: String,
    /// The button that `button` names; set when the configuration is resolved.
    pub gilrs_button: Button,
}

/// Play one given sample.
#[derive(Debug, PartialEq)]
pub struct SwitchPlay {
    pub bank: String,
    pub sample: String,
    /// The sample that `bank` and `sample` name; set when the configuration is
    /// resolved.
    pub bank_sample_ref: BankSampleRef,
}

/// Play a random sample of a bank.
#[derive(Debug, PartialEq)]
pub struct SwitchPlayRandom {
    pub bank: String,
    /// The bank that `bank` names; set when the configuration is resolved.
    pub bank_ref: BankRef,
}

/// Play a sample by its position relative to the one last played in a bank.
#[derive(Debug, PartialEq)]
pub struct SwitchPlayStep {
    pub bank: String,
    /// How many samples to move on: -1 plays the previous one, 0 repeats the
    /// last one, 1 plays the next one, 2 skips one.
    pub steps: i32,
    /// The bank that `bank` names; set when the configuration is resolved.
    pub bank_ref: BankRef,
}

/// A configured trigger and what it does.
#[derive(Debug, PartialEq)]
pub struct SwitchConfig {
    /// The title in the user interface.
    pub title: String,
    /// The keyboard key that triggers the switch, by name.
    pub key: Option<String>,
    /// The gamepad button that triggers the switch.
    pub gamepad: Option<Gamepad>,
    /// If true, stop all sounds.
    pub stop_sounds: bool,
    pub play: Option<SwitchPlay>,
    pub play_random: Option<SwitchPlayRandom>,
    pub play_step: Option<SwitchPlayStep>,
    /// Where the switch stands; set when the configuration is resolved.
    pub switch_ref: SwitchRef,
    /// The key that `key` names; set when the configuration is resolved.
    pub key_code: Option<KeyCode>,
}

pub struct SampleConfigView {
    pub id: Seq<char>,
    pub file: Seq<char>,
    pub bank_sample_ref: BankSampleRef,
    pub file_resolved: Option<Seq<char>>,
}

pub struct BankConfigView {
    pub id: Seq<char>,
    pub poly: bool,
    pub samples: Seq<SampleConfigView>,
    pub bank_ref: BankRef,
}

pub struct GamepadView {
    pub device_id: Option<usize>,
    pub button: Seq<char>,
    pub gilrs_button: Button,
}

pub struct SwitchPlayView {
    pub bank: Seq<char>,
    pub sample: Seq<char>,
    pub bank_sample_ref: BankSampleRef,
}

pub struct SwitchPlayRandomView {
    pub bank: Seq<char>,
    pub bank_ref: BankRef,
}

pub struct SwitchPlayStepView {
    pub bank: Seq<char>,
    pub steps: i32,
    pub bank_ref: BankRef,
}

pub struct SwitchConfigView {
    pub title: Seq<char>,
    pub key: Option<Seq<char>>,
    pub gamepad: Option<GamepadView>,
    pub stop_sounds: bool,
    pub play: Option<SwitchPlayView>,
    pub play_random: Option<SwitchPlayRandomView>,
    pub play_step: Option<SwitchPlayStepView>,
    pub switch_ref: SwitchRef,
    pub key_code: Option<KeyCode>,
}

impl View for SampleConfig {
    type V = SampleConfigView;

    open spec fn view(&self) -> SampleConfigView {
        SampleConfigView {
            id: self.id@,
            file: self.file@,
            bank_sample_ref: self.bank_sample_ref,
            file_resolved: match self.file_resolved {
                Some(path) => Some(path@),
                None => None,
            },
        }
    }
}

impl View for BankConfig {
    type V = BankConfigView;

    open spec fn view(&self) -> BankConfigView {
        BankConfigView {
            id: self.id@,
            poly: self.poly,
            samples: views(self.samples@),
            bank_ref: self.bank_ref,
        }
    }
}

impl View for Gamepad {
    type V = GamepadView;

    open spec fn view(&self) -> GamepadView {
        GamepadView {
            device_id: self.device_id,
            button: self.button@,
            gilrs_button: self.gilrs_button,
        }
    }
}

impl View for SwitchPlay {
    type V = SwitchPlayView;

    open spec fn view(&self) -> SwitchPlayView {
        SwitchPlayView {
            bank: self.bank@,
            sample: self.sample@,
            bank_sample_ref: self.bank_sample_ref,
        }
    }
}

impl View for SwitchPlayRandom {
    type V = SwitchPlayRandomView;

    open spec fn view(&self) -> SwitchPlayRandomView {
        SwitchPlayRandomView { bank: self.bank@, bank_ref: self.bank_ref }
    }
}

impl View for SwitchPlayStep {
    type V = SwitchPlayStepView;

    open spec fn view(&self) -> SwitchPlayStepView {
        SwitchPlayStepView { bank: self.bank@, steps: self.steps, bank_ref: self.bank_ref }
    }
}

impl View for SwitchConfig {
    type V = SwitchConfigView;

    open spec fn view(&self) -> SwitchConfigView {
        SwitchConfigView {
            title: self.title@,
            key: match self.key {
                Some(key) => Some(key@),
                None => None,
            },
            gamepad: match self.gamepad {
                Some(gamepad) => Some(gamepad@),
                None => None,
            },
            stop_sounds: self.stop_sounds,
            play: match self.play {
                Some(play) => Some(play@),
                None => None,
            },
            play_random: match self.play_random {
                Some(play) => Some(play@),
                None => None,
            },
            play_step: match self.play_step {
                Some(play) => Some(play@),
                None => None,
            },
            switch_ref: self.switch_ref,
            key_code: self.key_code,
        }
    }
}

impl Clone for SampleConfig {
    fn clone(&self) -> (copy: Self)
        ensures
            copy@ == self@,
    {
        SampleConfig {
            id: self.id.clone(),
            file: self.file.clone(),
            bank_sample_ref: self.bank_sample_ref,
            file_resolved: match &self.file_resolved {
                Some(path) => Some(path.clone()),
                None => None,
            },
        }
    }
}

impl Clone for BankConfig {
    fn clone(&self) -> (copy: Self)
        ensures
            copy@ == self@,
    {
        let mut samples: Vec<SampleConfig> = Vec::new();
        let mut sample_index: usize = 0;
        while sample_index < self.samples.len()
            invariant
                sample_index <= self.samples@.len(),
                samples@.len() == sample_index,
                forall|s: int| 0 <= s < sample_index ==> (#[trigger] samples@[s])@ == self.samples@[s]@,
            decreases self.samples@.len() - sample_index,
        {
            samples.push(self.samples[sample_index].clone());
            sample_index += 1;
        }
        assert(views(samples@) =~= views(self.samples@));
        BankConfig { id: self.id.clone(), poly: self.poly, samples, bank_ref: self.bank_ref }
    }
}

impl Clone for Gamepad {
    fn clone(&self) -> (copy: Self)
        ensures
            copy@ == self@,
    {
        Gamepad {
            device_id: self.device_id,
            button: self.button.clone(),
            gilrs_button: self.gilrs_button,
        }
    }
}

impl Clone for SwitchPlay {
    fn clone(&self) -> (copy: Self)
        ensures
            copy@ == self@,
    {
        SwitchPlay {
            bank: self.bank.clone(),
            sample: self.sample.clone(),
            bank_sample_ref: self.bank_sample_ref,
        }
    }
}

impl Clone for SwitchPlayRandom {
    fn clone(&self) -> (copy: Self)
        ensures
            copy@ == self@,
    {
        SwitchPlayRandom { bank: self.bank.clone(), bank_ref: self.bank_ref }
    }
}

impl Clone for SwitchPlayStep {
    fn clone(&self) -> (copy: Self)
        ensures
            copy@ == self@,
    {
        SwitchPlayStep { bank: self.bank.clone(), steps: self.steps, bank_ref: self.bank_ref }
    }
}

impl Clone for SwitchConfig {
    fn clone(&self) -> (copy: Self)
        ensures
            copy@ == self@,
    {
        SwitchConfig {
            title: self.title.clone(),
            key: match &self.key {
                Some(key) => Some(key.clone()),
                None => None,
            },
            gamepad: match &self.gamepad {
                Some(gamepad) => Some(gamepad.clone()),
                None => None,
            },
            stop_sounds: self.stop_sounds,
            play: match &self.play {
                Some(play) => Some(play.clone()),
                None => None,
            },
            play_random: match &self.play_random {
                Some(play) => Some(play.clone()),
                None => None,
            },
            play_step: match &self.play_step {
                Some(play) => Some(play.clone()),
                None => None,
            },
            switch_ref: self.switch_ref,
            key_code: self.key_code,
        }
    }
}

/// The view of each item of a list.
pub open spec fn views<T: View>(items: Seq<T>) -> Seq<T::V> {
    Seq::new(items.len(), |i: int| items[i]@)
}

/// A result with its error as a view.
pub open spec fn error_view<T>(result: Result<T, ConfigError>) -> Result<T, ConfigErrorView> {
    match result {
        Ok(value) => Ok(value),
        Err(error) => Err(error@),
    }
}

/// The bank that an identifier names: where two banks carry the identifier,
/// the later one.
pub open spec fn bank_named(banks: Seq<BankConfigView>, bank_id: Seq<char>) -> Option<int> {
    last_where(banks.len() as int, |b: int| banks[b].id == bank_id)
}

/// The sample that an identifier names in a bank: where two samples carry the
/// identifier, the later one.
pub open spec fn sample_named(samples: Seq<SampleConfigView>, sample_id: Seq<char>) -> Option<int> {
    last_where(samples.len() as int, |s: int| samples[s].id == sample_id)
}

/// The reference of the bank that an identifier names, or the error for an
/// identifier that names none.
pub open spec fn bank_ref_of(banks: Seq<BankConfigView>, bank_id: Seq<char>) -> Result<
    BankRef,
    ConfigErrorView,
> {
    match bank_named(banks, bank_id) {
        Some(b) => Ok(banks[b].bank_ref),
        None => Err(ConfigErrorView::UnknownBankId { bank: bank_id }),
    }
}

/// The reference of the sample that a pair of identifiers names, or the error
/// for the identifier that names nothing: the bank's first.
pub open spec fn sample_ref_of(
    banks: Seq<BankConfigView>,
    bank_id: Seq<char>,
    sample_id: Seq<char>,
) -> Result<BankSampleRef, ConfigErrorView> {
    match bank_named(banks, bank_id) {
        None => Err(ConfigErrorView::UnknownBankId { bank: bank_id }),
        Some(b) => match sample_named(banks[b].samples, sample_id) {
            None => Err(ConfigErrorView::UnknownSampleId { bank: bank_id, sample: sample_id }),
            Some(s) => Ok(banks[b].samples[s].bank_sample_ref),
        },
    }
}

impl BankConfig {
    /// The sample at a reference into this bank.
    pub fn sample(&self, sample_ref: SampleRef) -> (sample: &SampleConfig)
        requires
            sample_ref.sample_index < self.samples@.len(),
        ensures
            *sample == self.samples@[sample_ref.sample_index as int],
    {
        &self.samples[sample_ref.sample_index]
    }
}

/// Finds the references that the identifiers of banks and samples stand for.
pub struct ConfigIdLookup<'a> {
    banks: &'a Vec<BankConfig>,
}

impl<'a> View for ConfigIdLookup<'a> {
    type V = Seq<BankConfigView>;

    closed spec fn view(&self) -> Seq<BankConfigView> {
        views(self.banks@)
    }
}

impl<'a> ConfigIdLookup<'a> {
    pub fn new(banks: &'a Vec<BankConfig>) -> (lookup: Self)
        ensures
            lookup@ == views(banks@),
    {
        ConfigIdLookup { banks }
    }

    /// The position of the bank that `bank_id` names.
    fn find_bank(&self, bank_id: &str) -> (found: Option<usize>)
        ensures
            match found {
                Some(b) => bank_named(self@, bank_id@) == Some(b as int) && b < self.banks@.len(),
                None => bank_named(self@, bank_id@) is None,
            },
    {
        let ghost holds = |b: int| self@[b].id == bank_id@;
        let mut limit: usize = self.banks.len();
        while limit > 0
            invariant
                limit <= self.banks@.len(),
                holds == |b: int| self@[b].id == bank_id@,
                bank_named(self@, bank_id@) == last_where(limit as int, holds),
            decreases limit,
        {
            if str_eq(self.banks[limit - 1].id.as_str(), bank_id) {
                return Some(limit - 1);
            }
            limit -= 1;
        }
        None
    }

    pub fn bank_id_to_ref(&self, bank_id: &str) -> (result: Result<BankRef, ConfigError>)
        ensures
            error_view(result) == bank_ref_of(self@, bank_id@),
    {
        match self.find_bank(bank_id) {
            Some(b) => Ok(self.banks[b].bank_ref),
            None => Err(ConfigError::UnknownBankId { bank: bank_id.to_owned() }),
        }
    }

    pub fn sample_id_to_ref(&self, bank_id: &str, sample_id: &str) -> (result: Result<
        BankSampleRef,
        ConfigError,
    >)
        ensures
            error_view(result) == sample_ref_of(self@, bank_id@, sample_id@),
    {
        let b = match self.find_bank(bank_id) {
            Some(b) => b,
            None => {
                return Err(ConfigError::UnknownBankId { bank: bank_id.to_owned() });
            },
        };
        let samples = &self.banks[b].samples;
        let ghost sample_views = self@[b as int].samples;
        let ghost holds = |s: int| sample_views[s].id == sample_id@;
        let mut limit: usize = samples.len();
        while limit > 0
            invariant
                limit <= samples@.len(),
                bank_named(self@, bank_id@) == Some(b as int),
                sample_views == self@[b as int].samples,
                sample_views == views(samples@),
                holds == |s: int| sample_views[s].id == sample_id@,
                sample_named(sample_views, sample_id@) == last_where(limit as int, holds),
            decreases limit,
        {
            if str_eq(samples[limit - 1].id.as_str(), sample_id) {
                return Ok(samples[limit - 1].bank_sample_ref);
            }
            limit -= 1;
        }
        Err(
            ConfigError::UnknownSampleId {
                bank: bank_id.to_owned(),
                sample: sample_id.to_owned(),
            },
        )
    }
}

/// A bank with the references that its place in the configuration gives it
/// and its samples.
pub open spec fn numbered_bank(bank: BankConfigView, b: int) -> BankConfigView {
    BankConfigView {
        bank_ref: BankRef { bank_index: b as usize },
        samples: Seq::new(
            bank.samples.len(),
            |s: int|
                SampleConfigView {
                    bank_sample_ref: BankSampleRef {
                        bank: BankRef { bank_index: b as usize },
                        sample: SampleRef { sample_index: s as usize },
                    },
                    ..bank.samples[s]
                },
        ),
        ..bank
    }
}

/// The banks, each with the references of its place.
pub open spec fn numbered_banks(banks: Seq<BankConfigView>) -> Seq<BankConfigView> {
    Seq::new(banks.len(), |b: int| numbered_bank(banks[b], b))
}

/// What the platform's rule for adjoining paths makes of `file` adjoined to
/// `base`.
pub uninterp spec fn joined_path(base: Seq<char>, file: Seq<char>) -> Seq<char>;

/// Where a sample's file is found: its path adjoined to the configuration's
/// directory, or nowhere for an embedded configuration.
pub open spec fn resolved_file(resolve_path: Option<Seq<char>>, file: Seq<char>) -> Option<
    Seq<char>,
> {
    match resolve_path {
        Some(base) => Some(joined_path(base, file)),
        None => None,
    }
}

/// A bank with the file of each sample resolved.
pub open spec fn bank_with_paths(bank: BankConfigView, resolve_path: Option<Seq<char>>) -> BankConfigView {
    BankConfigView {
        samples: Seq::new(
            bank.samples.len(),
            |s: int|
                SampleConfigView {
                    file_resolved: resolved_file(resolve_path, bank.samples[s].file),
                    ..bank.samples[s]
                },
        ),
        ..bank
    }
}

/// The first identifier of a switch that names nothing, as the error it
/// gives: its exact sample first, then its random bank, then its step bank.
pub open spec fn ref_error(banks: Seq<BankConfigView>, switch: SwitchConfigView) -> Option<
    ConfigErrorView,
> {
    if switch.play is Some && sample_ref_of(
        banks,
        switch.play->0.bank,
        switch.play->0.sample,
    ) is Err {
        Some(sample_ref_of(banks, switch.play->0.bank, switch.play->0.sample)->Err_0)
    } else if switch.play_random is Some && bank_ref_of(banks, switch.play_random->0.bank) is Err {
        Some(bank_ref_of(banks, switch.play_random->0.bank)->Err_0)
    } else if switch.play_step is Some && bank_ref_of(banks, switch.play_step->0.bank) is Err {
        Some(bank_ref_of(banks, switch.play_step->0.bank)->Err_0)
    } else {
        None
    }
}

/// A switch with its own reference and with the references that its
/// identifiers name.
pub open spec fn with_refs(banks: Seq<BankConfigView>, switch: SwitchConfigView, index: int) -> SwitchConfigView {
    SwitchConfigView {
        switch_ref: SwitchRef { switch_index: index as usize },
        play: match switch.play {
            Some(play) => Some(
                SwitchPlayView {
                    bank_sample_ref: match sample_ref_of(banks, play.bank, play.sample) {
                        Ok(found) => found,
                        Err(_) => play.bank_sample_ref,
                    },
                    ..play
                },
            ),
            None => None,
        },
        play_random: match switch.play_random {
            Some(play) => Some(
                SwitchPlayRandomView {
                    bank_ref: match bank_ref_of(banks, play.bank) {
                        Ok(found) => found,
                        Err(_) => play.bank_ref,
                    },
                    ..play
                },
            ),
            None => None,
        },
        play_step: match switch.play_step {
            Some(play) => Some(
                SwitchPlayStepView {
                    bank_ref: match bank_ref_of(banks, play.bank) {
                        Ok(found) => found,
                        Err(_) => play.bank_ref,
                    },
                    ..play
                },
            ),
            None => None,
        },
        ..switch
    }
}

/// The error for a gamepad button name that is not known.
pub open spec fn gamepad_error(switch: SwitchConfigView) -> Option<ConfigErrorView> {
    match switch.gamepad {
        Some(gamepad) => if Button::named(gamepad.button) is None {
            Some(
                ConfigErrorView::UnknownGamepadButton {
                    button: gamepad.button,
                    allowed_values: joined(valid_button_names(), ", "@),
                },
            )
        } else {
            None
        },
        None => None,
    }
}

/// A switch with the button that its gamepad button name stands for.
pub open spec fn with_button(switch: SwitchConfigView) -> SwitchConfigView {
    SwitchConfigView {
        gamepad: match switch.gamepad {
            Some(gamepad) => Some(
                GamepadView {
                    gilrs_button: match Button::named(gamepad.button) {
                        Some(button) => button,
                        None => gamepad.gilrs_button,
                    },
                    ..gamepad
                },
            ),
            None => None,
        },
        ..switch
    }
}

/// The error for a keyboard key name that is not known.
pub open spec fn key_error(switch: SwitchConfigView) -> Option<ConfigErrorView> {
    match switch.key {
        Some(key) => if KeyCode::named(key) is None {
            Some(
                ConfigErrorView::UnknownKeyboardButton {
                    button: key,
                    allowed_values: joined(valid_key_names(), ", "@),
                },
            )
        } else {
            None
        },
        None => None,
    }
}

/// A switch with the key that its key name stands for.
pub open spec fn with_key_code(switch: SwitchConfigView) -> SwitchConfigView {
    SwitchConfigView {
        key_code: match switch.key {
            Some(key) => KeyCode::named(key),
            None => None,
        },
        ..switch
    }
}

/// The error of the first switch, in declaration order, for which `error_of`
/// gives one.
pub open spec fn first_error(
    switches: Seq<SwitchConfigView>,
    error_of: spec_fn(SwitchConfigView) -> Option<ConfigErrorView>,
) -> Option<ConfigErrorView> {
    match first_where(switches.len() as int, |i: int| error_of(switches[i]) is Some) {
        Some(i) => error_of(switches[i]),
        None => None,
    }
}

/// With no error among the first `done` switches and one at `done`, that one
/// is the first error.
pub proof fn lemma_first_error_at(
    switches: Seq<SwitchConfigView>,
    error_of: spec_fn(SwitchConfigView) -> Option<ConfigErrorView>,
    done: int,
)
    requires
        0 <= done < switches.len(),
        forall|j: int| 0 <= j < done ==> (#[trigger] error_of(switches[j])) is None,
        error_of(switches[done]) is Some,
    ensures
        first_error(switches, error_of) == error_of(switches[done]),
{
    lemma_first_where_is(switches.len() as int, |i: int| error_of(switches[i]) is Some, done);
}

/// With no error among the switches there is no first error.
pub proof fn lemma_first_error_none(
    switches: Seq<SwitchConfigView>,
    error_of: spec_fn(SwitchConfigView) -> Option<ConfigErrorView>,
)
    requires
        forall|j: int| 0 <= j < switches.len() ==> (#[trigger] error_of(switches[j])) is None,
    ensures
        first_error(switches, error_of) is None,
{
    lemma_first_where_none(switches.len() as int, |i: int| error_of(switches[i]) is Some);
}

/// Lists of switches that give the same errors place by place have the same
/// first error.
pub proof fn lemma_first_error_agree(
    switches: Seq<SwitchConfigView>,
    others: Seq<SwitchConfigView>,
    error_of: spec_fn(SwitchConfigView) -> Option<ConfigErrorView>,
)
    requires
        switches.len() == others.len(),
        forall|j: int|
            0 <= j < switches.len() ==> error_of(#[trigger] switches[j]) == error_of(others[j]),
    ensures
        first_error(switches, error_of) == first_error(others, error_of),
{
    let holds = |i: int| error_of(switches[i]) is Some;
    let other = |i: int| error_of(others[i]) is Some;
    assert forall|j: int| 0 <= j < switches.len() implies #[trigger] holds(j) == #[trigger] other(
        j,
    ) by {
        assert(error_of(switches[j]) == error_of(others[j]));
    }
    lemma_first_where_agree(switches.len() as int, holds, other);
    lemma_first_where(switches.len() as int, holds);
}

/// Where there is no first error, no switch gives one.
pub proof fn lemma_no_first_error(
    switches: Seq<SwitchConfigView>,
    error_of: spec_fn(SwitchConfigView) -> Option<ConfigErrorView>,
)
    requires
        first_error(switches, error_of) is None,
    ensures
        forall|j: int| 0 <= j < switches.len() ==> (#[trigger] error_of(switches[j])) is None,
{
    let holds = |i: int| error_of(switches[i]) is Some;
    lemma_first_where(switches.len() as int, holds);
    assert forall|j: int| 0 <= j < switches.len() implies (#[trigger] error_of(
        switches[j],
    )) is None by {
        assert(!holds(j));
    }
}

/// Adjoins `file` to `base` with `std::path::PathBuf::push`, which follows the
/// platform's rule for paths: trusted to depend on the two texts alone.
#[verifier::external_body]
fn join_path(base: &str, file: &str) -> (joined: String)
    ensures
        joined@ == joined_path(base@, file@),
{
    let mut resolved = PathBuf::from(base);
    resolved.push(file);
    resolved.to_string_lossy().into_owned()
}

/// Gives a bank and its samples the references of the bank's place.
fn number_bank(bank: &mut BankConfig, bank_index: usize)
    ensures
        final(bank)@ == numbered_bank(old(bank)@, bank_index as int),
{
    bank.bank_ref = BankRef { bank_index };
    let ghost before = old(bank)@.samples;
    let mut sample_index: usize = 0;
    while sample_index < bank.samples.len()
        invariant
            sample_index <= bank.samples@.len(),
            bank.samples@.len() == before.len(),
            bank.id == old(bank).id,
            bank.poly == old(bank).poly,
            bank.bank_ref == (BankRef { bank_index }),
            before == old(bank)@.samples,
            forall|s: int|
                0 <= s < sample_index ==> (#[trigger] bank.samples@[s])@ == numbered_bank(
                    old(bank)@,
                    bank_index as int,
                ).samples[s],
            forall|s: int| sample_index <= s < before.len() ==> (#[trigger] bank.samples@[s])@ == before[s],
        decreases bank.samples@.len() - sample_index,
    {
        bank.samples[sample_index].bank_sample_ref = BankSampleRef {
            bank: BankRef { bank_index },
            sample: SampleRef { sample_index },
        };
        sample_index += 1;
    }
    assert(bank@.samples =~= numbered_bank(old(bank)@, bank_index as int).samples);
}

/// Resolves the file of each sample of a bank.
fn resolve_bank_path(bank: &mut BankConfig, resolve_path: &Option<String>)
    ensures
        final(bank)@ == bank_with_paths(old(bank)@, option_view(*resolve_path)),
{
    let ghost before = old(bank)@.samples;
    let ghost base = option_view(*resolve_path);
    let mut sample_index: usize = 0;
    while sample_index < bank.samples.len()
        invariant
            sample_index <= bank.samples@.len(),
            bank.samples@.len() == before.len(),
            bank.id == old(bank).id,
            bank.poly == old(bank).poly,
            bank.bank_ref == old(bank).bank_ref,
            before == old(bank)@.samples,
            base == option_view(*resolve_path),
            forall|s: int|
                0 <= s < sample_index ==> (#[trigger] bank.samples@[s])@ == bank_with_paths(
                    old(bank)@,
                    base,
                ).samples[s],
            forall|s: int| sample_index <= s < before.len() ==> (#[trigger] bank.samples@[s])@ == before[s],
        decreases bank.samples@.len() - sample_index,
    {
        let resolved = match resolve_path {
            Some(base) => Some(join_path(base.as_str(), bank.samples[sample_index].file.as_str())),
            None => None,
        };
        bank.samples[sample_index].file_resolved = resolved;
        sample_index += 1;
    }
    assert(bank@.samples =~= bank_with_paths(old(bank)@, base).samples);
}

/// Gives a switch its own reference and the references that its identifiers
/// name, or the error for the first identifier that names nothing.
fn resolve_switch_refs(switch: &mut SwitchConfig, lookup: &ConfigIdLookup, switch_index: usize) -> (result:
    Result<(), ConfigError>)
    ensures
        match result {
            Ok(()) => ref_error(lookup@, old(switch)@) is None && final(switch)@ == with_refs(
                lookup@,
                old(switch)@,
                switch_index as int,
            ),
            Err(error) => ref_error(lookup@, old(switch)@) == Some(error@),
        },
{
    switch.switch_ref = SwitchRef { switch_index };
    if let Some(play) = &mut switch.play {
        match lookup.sample_id_to_ref(play.bank.as_str(), play.sample.as_str()) {
            Ok(found) => {
                play.bank_sample_ref = found;
            },
            Err(error) => {
                return Err(error);
            },
        }
    }
    if let Some(play) = &mut switch.play_random {
        match lookup.bank_id_to_ref(play.bank.as_str()) {
            Ok(found) => {
                play.bank_ref = found;
            },
            Err(error) => {
                return Err(error);
            },
        }
    }
    if let Some(play) = &mut switch.play_step {
        match lookup.bank_id_to_ref(play.bank.as_str()) {
            Ok(found) => {
                play.bank_ref = found;
            },
            Err(error) => {
                return Err(error);
            },
        }
    }
    Ok(())
}

/// Sets the button that a switch's gamepad button name stands for, or gives
/// the error for a name that is not known.
fn resolve_switch_button(switch: &mut SwitchConfig) -> (result: Result<(), ConfigError>)
    ensures
        match result {
            Ok(()) => gamepad_error(old(switch)@) is None && final(switch)@ == with_button(
                old(switch)@,
            ),
            Err(error) => gamepad_error(old(switch)@) == Some(error@),
        },
{
    if let Some(gamepad) = &mut switch.gamepad {
        match Button::from_name(gamepad.button.as_str()) {
            Some(button) => {
                gamepad.gilrs_button = button;
            },
            None => {
                let names = make_valid_gamepad_button_vec();
                assert(str_views(names@) =~= valid_button_names());
                return Err(
                    ConfigError::UnknownGamepadButton {
                        button: gamepad.button.clone(),
                        allowed_values: join(&names, ", "),
                    },
                );
            },
        }
    }
    Ok(())
}

/// Sets the key that a switch's key name stands for, or gives the error for a
/// name that is not known.
fn resolve_switch_key(switch: &mut SwitchConfig) -> (result: Result<(), ConfigError>)
    ensures
        match result {
            Ok(()) => key_error(old(switch)@) is None && final(switch)@ == with_key_code(
                old(switch)@,
            ),
            Err(error) => key_error(old(switch)@) == Some(error@),
        },
{
    match &switch.key {
        Some(key) => {
            match KeyCode::from_name(key.as_str()) {
                Some(key_code) => {
                    switch.key_code = Some(key_code);
                },
                None => {
                    let names = make_valid_keyboard_button_vec();
                    assert(str_views(names@) =~= valid_key_names());
                    return Err(
                        ConfigError::UnknownKeyboardButton {
                            button: key.clone(),
                            allowed_values: join(&names, ", "),
                        },
                    );
                },
            }
        },
        None => {
            switch.key_code = None;
        },
    }
    Ok(())
}

/// The first identifier, in declaration order of the switches, that names
/// nothing, as the error it gives.
pub open spec fn first_ref_error(banks: Seq<BankConfigView>, switches: Seq<SwitchConfigView>) -> Option<
    ConfigErrorView,
> {
    first_error(switches, |switch: SwitchConfigView| ref_error(banks, switch))
}

/// The error for the first gamepad button name that is not known.
pub open spec fn first_gamepad_error(switches: Seq<SwitchConfigView>) -> Option<ConfigErrorView> {
    first_error(switches, |switch: SwitchConfigView| gamepad_error(switch))
}

/// The error for the first keyboard key name that is not known.
pub open spec fn first_key_error(switches: Seq<SwitchConfigView>) -> Option<ConfigErrorView> {
    first_error(switches, |switch: SwitchConfigView| key_error(switch))
}

/// Why a configuration is refused, if it is: an identifier that names
/// nothing comes before an unknown keyboard key, and that before an unknown
/// gamepad button.
pub open spec fn resolution_error(banks: Seq<BankConfigView>, switches: Seq<SwitchConfigView>) -> Option<
    ConfigErrorView,
> {
    if first_ref_error(numbered_banks(banks), switches) is Some {
        first_ref_error(numbered_banks(banks), switches)
    } else if first_key_error(switches) is Some {
        first_key_error(switches)
    } else {
        first_gamepad_error(switches)
    }
}

/// The switch at place `index`, resolved against the banks: its references
/// first, then its key, then its button.
pub open spec fn resolved_switch(banks: Seq<BankConfigView>, switch: SwitchConfigView, index: int) -> SwitchConfigView {
    with_button(with_key_code(with_refs(numbered_banks(banks), switch, index)))
}

/// A configuration as a value: what was declared, with every reference
/// resolved.
pub struct ConfigView {
    pub banks: Seq<BankConfigView>,
    pub switches: Seq<SwitchConfigView>,
    pub resolve_path: Option<Seq<char>>,
}

/// The configuration that resolving makes of the declared banks and switches.
pub open spec fn resolved_config(
    banks: Seq<BankConfigView>,
    switches: Seq<SwitchConfigView>,
    resolve_path: Option<Seq<char>>,
) -> ConfigView {
    ConfigView {
        banks: Seq::new(
            banks.len(),
            |b: int| bank_with_paths(numbered_bank(banks[b], b), resolve_path),
        ),
        switches: Seq::new(switches.len(), |i: int| resolved_switch(banks, switches[i], i)),
        resolve_path,
    }
}

/// Whether a sample reference points at a sample of the banks.
pub open spec fn sample_in_range(banks: Seq<BankConfigView>, sample: BankSampleRef) -> bool {
    &&& sample.bank.bank_index < banks.len()
    &&& sample.sample.sample_index < banks[sample.bank.bank_index as int].samples.len()
}

/// Whether the references of the switch at place `index` are its own place
/// and places within the banks.
pub open spec fn switch_refs_valid(banks: Seq<BankConfigView>, switch: SwitchConfigView, index: int) -> bool {
    &&& switch.switch_ref.switch_index == index
    &&& switch.play matches Some(play) ==> sample_in_range(banks, play.bank_sample_ref)
    &&& switch.play_random matches Some(play) ==> play.bank_ref.bank_index < banks.len()
    &&& switch.play_step matches Some(play) ==> play.bank_ref.bank_index < banks.len()
}

impl ConfigView {
    /// Every reference is the place of what carries it or of what it names.
    pub open spec fn wf(self) -> bool {
        &&& forall|b: int|
            0 <= b < self.banks.len() ==> (#[trigger] self.banks[b]).bank_ref.bank_index == b
        &&& forall|b: int, s: int|
            0 <= b < self.banks.len() && 0 <= s < self.banks[b].samples.len() ==> (
            #[trigger] self.banks[b].samples[s]).bank_sample_ref == (BankSampleRef {
                bank: BankRef { bank_index: b as usize },
                sample: SampleRef { sample_index: s as usize },
            })
        &&& forall|i: int|
            0 <= i < self.switches.len() ==> switch_refs_valid(
                self.banks,
                #[trigger] self.switches[i],
                i,
            )
    }
}

/// The switch that a keyboard key triggers among the first `limit` switches:
/// the last of them that is bound to the key.
pub open spec fn keyboard_switch_below(switches: Seq<SwitchConfigView>, key: KeyCode, limit: int) -> Option<
    int,
> {
    last_where(limit, |i: int| switches[i].key_code == Some(key))
}

/// The switch that a keyboard key triggers: the last one bound to the key.
pub open spec fn keyboard_switch(switches: Seq<SwitchConfigView>, key: KeyCode) -> Option<int> {
    keyboard_switch_below(switches, key, switches.len() as int)
}

/// Whether a switch is bound to a button with exactly this device filter.
pub open spec fn bound_to_button(switch: SwitchConfigView, device_id: Option<usize>, button: Button) -> bool {
    switch.gamepad matches Some(gamepad) && gamepad.device_id == device_id && gamepad.gilrs_button
        == button
}

/// The last of the first `limit` switches that is bound to a button with
/// exactly this device filter.
pub open spec fn button_switch_below(
    switches: Seq<SwitchConfigView>,
    device_id: Option<usize>,
    button: Button,
    limit: int,
) -> Option<int> {
    last_where(limit, |i: int| bound_to_button(switches[i], device_id, button))
}

/// The switch that a button of a device triggers: the last one bound to the
/// button for that device; failing that, the last one bound to the button
/// for any device.
pub open spec fn gamepad_switch(switches: Seq<SwitchConfigView>, device_id: usize, button: Button) -> Option<
    int,
> {
    match button_switch_below(switches, Some(device_id), button, switches.len() as int) {
        Some(i) => Some(i),
        None => button_switch_below(switches, None, button, switches.len() as int),
    }
}

/// Whether a switch plays exactly this sample.
pub open spec fn plays_sample(switch: SwitchConfigView, sample: BankSampleRef) -> bool {
    switch.play matches Some(play) && play.bank_sample_ref == sample
}

/// The references of those of the first `limit` switches that play exactly
/// this sample, in declaration order.
pub open spec fn switches_playing_below(
    switches: Seq<SwitchConfigView>,
    sample: BankSampleRef,
    limit: int,
) -> Seq<SwitchRef>
    decreases limit,
{
    if limit <= 0 {
        Seq::empty()
    } else if plays_sample(switches[limit - 1], sample) {
        switches_playing_below(switches, sample, limit - 1).push(switches[limit - 1].switch_ref)
    } else {
        switches_playing_below(switches, sample, limit - 1)
    }
}

/// The references of the switches that play exactly this sample, in
/// declaration order.
pub open spec fn switches_playing(switches: Seq<SwitchConfigView>, sample: BankSampleRef) -> Seq<
    SwitchRef,
> {
    switches_playing_below(switches, sample, switches.len() as int)
}

/// No switch plays a sample that lies outside the banks.
pub proof fn lemma_nothing_plays_outside(config: ConfigView, sample: BankSampleRef, limit: int)
    requires
        config.wf(),
        !sample_in_range(config.banks, sample),
        limit <= config.switches.len(),
    ensures
        switches_playing_below(config.switches, sample, limit) == Seq::<SwitchRef>::empty(),
    decreases limit,
{
    if limit > 0 {
        lemma_nothing_plays_outside(config, sample, limit - 1);
        assert(switch_refs_valid(config.banks, config.switches[limit - 1], limit - 1));
    }
}

/// The number that stands for a device filter in the gamepad lookup table.
spec fn device_key(device_id: Option<usize>) -> u128 {
    match device_id {
        Some(device_id) => (device_id + 1) as u128,
        None => 0,
    }
}

/// The keyboard lookup table holds, for each key, the switch that the key
/// triggers among the first `limit` switches.
spec fn keyboard_agrees(table: Map<usize, SwitchRef>, switches: Seq<SwitchConfigView>, limit: int) -> bool {
    forall|key: KeyCode|
        match #[trigger] keyboard_switch_below(switches, key, limit) {
            Some(i) => table.contains_key(key.spec_code() as usize) && table[key.spec_code() as usize].switch_index
                == i,
            None => !table.contains_key(key.spec_code() as usize),
        }
}

/// The gamepad lookup table holds, for each device filter and button, the
/// last of the first `limit` switches bound to them.
spec fn gamepad_agrees(
    table: Map<u128, HashMap<usize, SwitchRef>>,
    switches: Seq<SwitchConfigView>,
    limit: int,
) -> bool {
    forall|device_id: Option<usize>, button: Button|
        match #[trigger] button_switch_below(switches, device_id, button, limit) {
            Some(i) => {
                &&& table.contains_key(device_key(device_id))
                &&& table[device_key(device_id)]@.contains_key(button.spec_code() as usize)
                &&& table[device_key(device_id)]@[button.spec_code() as usize].switch_index == i
            },
            None => !(table.contains_key(device_key(device_id)) && table[device_key(
                device_id,
            )]@.contains_key(button.spec_code() as usize)),
        }
}

/// The table of playing switches has one list for each sample of each bank:
/// the switches among the first `limit` that play the sample.
spec fn plays_agree(
    table: Seq<Vec<Vec<SwitchRef>>>,
    banks: Seq<BankConfigView>,
    switches: Seq<SwitchConfigView>,
    limit: int,
) -> bool {
    &&& table.len() == banks.len()
    &&& forall|b: int| 0 <= b < banks.len() ==> (#[trigger] table[b])@.len() == banks[b].samples.len()
    &&& forall|b: int, s: int|
        0 <= b < banks.len() && 0 <= s < banks[b].samples.len() ==> (#[trigger] table[b]@[s])@
            == switches_playing_below(
            switches,
            BankSampleRef {
                bank: BankRef { bank_index: b as usize },
                sample: SampleRef { sample_index: s as usize },
            },
            limit,
        )
}

/// The tables that answer which switch a key or a button triggers and which
/// switches play a sample. They are filled when a configuration is resolved.
#[derive(Debug)]
pub struct LookupTables {
    /// Key number to the switch that the key triggers.
    keyboard_key_to_switch_lookup_table: HashMap<usize, SwitchRef>,
    /// Device filter number, then button number, to the switch that the
    /// button triggers.
    gamepad_button_to_switch_lookup_table: HashMap<u128, HashMap<usize, SwitchRef>>,
    /// Bank index, then sample index, to the switches that play that sample.
    sample_to_switch_play: Vec<Vec<Vec<SwitchRef>>>,
    empty_switch_ref_vec: Vec<SwitchRef>,
}

impl LookupTables {
    /// The tables hold what the banks and switches declare.
    pub closed spec fn agree(&self, banks: Seq<BankConfigView>, switches: Seq<SwitchConfigView>) -> bool {
        &&& keyboard_agrees(
            self.keyboard_key_to_switch_lookup_table@,
            switches,
            switches.len() as int,
        )
        &&& gamepad_agrees(
            self.gamepad_button_to_switch_lookup_table@,
            switches,
            switches.len() as int,
        )
        &&& plays_agree(self.sample_to_switch_play@, banks, switches, switches.len() as int)
        &&& self.empty_switch_ref_vec@.len() == 0
    }

    fn new() -> (tables: Self)
        ensures
            tables.keyboard_key_to_switch_lookup_table@ == Map::<usize, SwitchRef>::empty(),
            tables.gamepad_button_to_switch_lookup_table@ == Map::<
                u128,
                HashMap<usize, SwitchRef>,
            >::empty(),
            tables.sample_to_switch_play@.len() == 0,
            tables.empty_switch_ref_vec@.len() == 0,
    {
        LookupTables {
            keyboard_key_to_switch_lookup_table: HashMap::new(),
            gamepad_button_to_switch_lookup_table: HashMap::new(),
            sample_to_switch_play: Vec::new(),
            empty_switch_ref_vec: Vec::new(),
        }
    }
}

/// The resolved configuration: banks and switches, cross-referenced, and the
/// lookup tables made from them.
#[derive(Debug)]
pub struct Config {
    pub banks: Vec<BankConfig>,
    pub switches: Vec<SwitchConfig>,
    /// The path that all other paths are relative to; absent when the
    /// configuration is embedded.
    pub resolve_path: Option<String>,
    pub lookup_tables: LookupTables,
}

impl Clone for LookupTables {
    fn clone(&self) -> (copy: Self)
        ensures
            forall|banks: Seq<BankConfigView>, switches: Seq<SwitchConfigView>|
                #[trigger] self.agree(banks, switches) ==> copy.agree(banks, switches),
    {
        let table = &self.sample_to_switch_play;
        let mut sample_to_switch_play: Vec<Vec<Vec<SwitchRef>>> = Vec::new();
        let mut bank_index: usize = 0;
        while bank_index < table.len()
            invariant
                bank_index <= table@.len(),
                sample_to_switch_play@.len() == bank_index,
                forall|b: int|
                    0 <= b < bank_index ==> (#[trigger] sample_to_switch_play@[b])@.len()
                        == table@[b]@.len(),
                forall|b: int, s: int|
                    0 <= b < bank_index && 0 <= s < table@[b]@.len() ==> (
                    #[trigger] sample_to_switch_play@[b]@[s])@ == table@[b]@[s]@,
            decreases table@.len() - bank_index,
        {
            let lists = &table[bank_index];
            let mut lists_copy: Vec<Vec<SwitchRef>> = Vec::new();
            let mut sample_index: usize = 0;
            while sample_index < lists.len()
                invariant
                    sample_index <= lists@.len(),
                    lists_copy@.len() == sample_index,
                    forall|s: int| 0 <= s < sample_index ==> (#[trigger] lists_copy@[s])@ == lists@[s]@,
                decreases lists@.len() - sample_index,
            {
                let list = &lists[sample_index];
                let mut list_copy: Vec<SwitchRef> = Vec::new();
                let mut i: usize = 0;
                while i < list.len()
                    invariant
                        i <= list@.len(),
                        list_copy@ == list@.take(i as int),
                    decreases list@.len() - i,
                {
                    list_copy.push(list[i]);
                    assert(list_copy@ =~= list@.take(i + 1));
                    i += 1;
                }
                assert(list_copy@ =~= list@);
                lists_copy.push(list_copy);
                sample_index += 1;
            }
            sample_to_switch_play.push(lists_copy);
            bank_index += 1;
        }
        LookupTables {
            keyboard_key_to_switch_lookup_table: self.keyboard_key_to_switch_lookup_table.clone(),
            gamepad_button_to_switch_lookup_table: self.gamepad_button_to_switch_lookup_table.clone(),
            sample_to_switch_play,
            empty_switch_ref_vec: Vec::new(),
        }
    }
}

impl Clone for Config {
    /// A copy of the configuration, as each worker gets its own.
    fn clone(&self) -> (copy: Self)
        ensures
            copy@ == self@,
            self.wf() ==> copy.wf(),
    {
        let mut banks: Vec<BankConfig> = Vec::new();
        let mut bank_index: usize = 0;
        while bank_index < self.banks.len()
            invariant
                bank_index <= self.banks@.len(),
                banks@.len() == bank_index,
                forall|b: int| 0 <= b < bank_index ==> (#[trigger] banks@[b])@ == self.banks@[b]@,
            decreases self.banks@.len() - bank_index,
        {
            banks.push(self.banks[bank_index].clone());
            bank_index += 1;
        }
        let mut switches: Vec<SwitchConfig> = Vec::new();
        let mut switch_index: usize = 0;
        while switch_index < self.switches.len()
            invariant
                switch_index <= self.switches@.len(),
                switches@.len() == switch_index,
                forall|i: int|
                    0 <= i < switch_index ==> (#[trigger] switches@[i])@ == self.switches@[i]@,
            decreases self.switches@.len() - switch_index,
        {
            switches.push(self.switches[switch_index].clone());
            switch_index += 1;
        }
        let copy = Config {
            banks,
            switches,
            resolve_path: match &self.resolve_path {
                Some(path) => Some(path.clone()),
                None => None,
            },
            lookup_tables: self.lookup_tables.clone(),
        };
        proof {
            assert(copy@.banks =~= self@.banks);
            assert(copy@.switches =~= self@.switches);
            if self.wf() {
                assert(self.lookup_tables.agree(self@.banks, self@.switches));
            }
        }
        copy
    }
}

impl View for Config {
    type V = ConfigView;

    open spec fn view(&self) -> ConfigView {
        ConfigView {
            banks: views(self.banks@),
            switches: views(self.switches@),
            resolve_path: option_view(self.resolve_path),
        }
    }
}

impl Config {
    /// The configuration is resolved: its references are valid and its lookup
    /// tables hold what it declares.
    pub open spec fn wf(&self) -> bool {
        self@.wf() && self.lookup_tables.agree(self@.banks, self@.switches)
    }

    fn resolve_refs(&mut self) -> (result: Result<(), ConfigError>)
        ensures
            final(self).resolve_path == old(self).resolve_path,
            final(self).lookup_tables == old(self).lookup_tables,
            final(self)@.banks == numbered_banks(old(self)@.banks),
            final(self)@.switches.len() == old(self)@.switches.len(),
            match result {
                Ok(()) => {
                    &&& first_ref_error(numbered_banks(old(self)@.banks), old(self)@.switches) is None
                    &&& forall|i: int|
                        0 <= i < old(self)@.switches.len() ==> #[trigger] final(self)@.switches[i]
                            == with_refs(numbered_banks(old(self)@.banks), old(self)@.switches[i], i)
                },
                Err(error) => first_ref_error(numbered_banks(old(self)@.banks), old(self)@.switches)
                    == Some(error@),
            },
    {
        let ghost declared_banks = self@.banks;
        let ghost declared = self@.switches;
        let mut bank_index: usize = 0;
        while bank_index < self.banks.len()
            invariant
                bank_index <= self.banks@.len(),
                self.banks@.len() == declared_banks.len(),
                self.switches == old(self).switches,
                self.resolve_path == old(self).resolve_path,
                self.lookup_tables == old(self).lookup_tables,
                forall|b: int|
                    0 <= b < bank_index ==> (#[trigger] self.banks@[b])@ == numbered_bank(
                        declared_banks[b],
                        b,
                    ),
                forall|b: int|
                    bank_index <= b < declared_banks.len() ==> (#[trigger] self.banks@[b])@
                        == declared_banks[b],
            decreases self.banks@.len() - bank_index,
        {
            number_bank(&mut self.banks[bank_index], bank_index);
            bank_index += 1;
        }
        let ghost banks = numbered_banks(declared_banks);
        assert(self@.banks =~= banks);
        let lookup = ConfigIdLookup::new(&self.banks);
        let ghost error_of = |switch: SwitchConfigView| ref_error(banks, switch);
        let mut switch_index: usize = 0;
        while switch_index < self.switches.len()
            invariant
                switch_index <= self.switches@.len(),
                self.switches@.len() == declared.len(),
                declared == old(self)@.switches,
                banks == numbered_banks(old(self)@.banks),
                self@.banks == banks,
                lookup@ == banks,
                self.resolve_path == old(self).resolve_path,
                self.lookup_tables == old(self).lookup_tables,
                error_of == |switch: SwitchConfigView| ref_error(banks, switch),
                forall|i: int| 0 <= i < switch_index ==> (#[trigger] error_of(declared[i])) is None,
                forall|i: int|
                    0 <= i < switch_index ==> (#[trigger] self.switches@[i])@ == with_refs(
                        banks,
                        declared[i],
                        i,
                    ),
                forall|i: int|
                    switch_index <= i < declared.len() ==> (#[trigger] self.switches@[i])@
                        == declared[i],
            decreases self.switches@.len() - switch_index,
        {
            match resolve_switch_refs(&mut self.switches[switch_index], &lookup, switch_index) {
                Ok(()) => {},
                Err(error) => {
                    proof {
                        lemma_first_error_at(declared, error_of, switch_index as int);
                    }
                    return Err(error);
                },
            }
            switch_index += 1;
        }
        proof {
            lemma_first_error_none(declared, error_of);
        }
        Ok(())
    }

    fn resolve_bank_paths(&mut self)
        ensures
            final(self).resolve_path == old(self).resolve_path,
            final(self).lookup_tables == old(self).lookup_tables,
            final(self).switches == old(self).switches,
            final(self)@.banks.len() == old(self)@.banks.len(),
            forall|b: int|
                0 <= b < old(self)@.banks.len() ==> #[trigger] final(self)@.banks[b]
                    == bank_with_paths(old(self)@.banks[b], old(self)@.resolve_path),
    {
        let ghost before = self@.banks;
        let mut bank_index: usize = 0;
        while bank_index < self.banks.len()
            invariant
                bank_index <= self.banks@.len(),
                self.banks@.len() == before.len(),
                self.switches == old(self).switches,
                self.resolve_path == old(self).resolve_path,
                self.lookup_tables == old(self).lookup_tables,
                forall|b: int|
                    0 <= b < bank_index ==> (#[trigger] self.banks@[b])@ == bank_with_paths(
                        before[b],
                        old(self)@.resolve_path,
                    ),
                forall|b: int|
                    bank_index <= b < before.len() ==> (#[trigger] self.banks@[b])@ == before[b],
            decreases self.banks@.len() - bank_index,
        {
            resolve_bank_path(&mut self.banks[bank_index], &self.resolve_path);
            bank_index += 1;
        }
    }

    fn resolve_gamepad_button_mappings(&mut self) -> (result: Result<(), ConfigError>)
        ensures
            final(self).resolve_path == old(self).resolve_path,
            final(self).lookup_tables == old(self).lookup_tables,
            final(self).banks == old(self).banks,
            final(self)@.switches.len() == old(self)@.switches.len(),
            match result {
                Ok(()) => {
                    &&& first_gamepad_error(old(self)@.switches) is None
                    &&& forall|i: int|
                        0 <= i < old(self)@.switches.len() ==> #[trigger] final(self)@.switches[i]
                            == with_button(old(self)@.switches[i])
                },
                Err(error) => first_gamepad_error(old(self)@.switches) == Some(error@),
            },
    {
        let ghost before = self@.switches;
        let ghost error_of = |switch: SwitchConfigView| gamepad_error(switch);
        let mut switch_index: usize = 0;
        while switch_index < self.switches.len()
            invariant
                switch_index <= self.switches@.len(),
                self.switches@.len() == before.len(),
                before == old(self)@.switches,
                self.banks == old(self).banks,
                self.resolve_path == old(self).resolve_path,
                self.lookup_tables == old(self).lookup_tables,
                error_of == |switch: SwitchConfigView| gamepad_error(switch),
                forall|i: int| 0 <= i < switch_index ==> (#[trigger] error_of(before[i])) is None,
                forall|i: int|
                    0 <= i < switch_index ==> (#[trigger] self.switches@[i])@ == with_button(
                        before[i],
                    ),
                forall|i: int|
                    switch_index <= i < before.len() ==> (#[trigger] self.switches@[i])@
                        == before[i],
            decreases self.switches@.len() - switch_index,
        {
            match resolve_switch_button(&mut self.switches[switch_index]) {
                Ok(()) => {},
                Err(error) => {
                    proof {
                        lemma_first_error_at(before, error_of, switch_index as int);
                    }
                    return Err(error);
                },
            }
            switch_index += 1;
        }
        proof {
            lemma_first_error_none(before, error_of);
        }
        Ok(())
    }
}


/// The number that stands for a device filter in the gamepad lookup table.
fn device_number(device_id: Option<usize>) -> (number: u128)
    ensures
        number == device_key(device_id),
{
    match device_id {
        Some(device_id) => device_id as u128 + 1,
        None => 0,
    }
}

/// The lists are no longer than a list in memory can be.
pub open spec fn fits_in_memory(banks: Seq<BankConfigView>, switches: Seq<SwitchConfigView>) -> bool {
    &&& banks.len() <= usize::MAX
    &&& switches.len() <= usize::MAX
    &&& forall|b: int| 0 <= b < banks.len() ==> (#[trigger] banks[b]).samples.len() <= usize::MAX
}

/// A configuration whose identifiers all name something resolves to one whose
/// references are valid.
pub proof fn lemma_resolved_refs_valid(
    banks: Seq<BankConfigView>,
    switches: Seq<SwitchConfigView>,
    resolve_path: Option<Seq<char>>,
)
    requires
        first_ref_error(numbered_banks(banks), switches) is None,
        fits_in_memory(banks, switches),
    ensures
        resolved_config(banks, switches, resolve_path).wf(),
{
    let numbered = numbered_banks(banks);
    let config = resolved_config(banks, switches, resolve_path);
    assert forall|b: int, s: int|
        0 <= b < config.banks.len() && 0 <= s < config.banks[b].samples.len() implies (
    #[trigger] config.banks[b].samples[s]).bank_sample_ref == (BankSampleRef {
        bank: BankRef { bank_index: b as usize },
        sample: SampleRef { sample_index: s as usize },
    }) by {
        assert(banks[b].samples.len() <= usize::MAX);
    }
    lemma_no_first_error(switches, |switch: SwitchConfigView| ref_error(numbered, switch));
    assert forall|i: int| 0 <= i < config.switches.len() implies switch_refs_valid(
        config.banks,
        #[trigger] config.switches[i],
        i,
    ) by {
        let declared = switches[i];
        let error_of = |switch: SwitchConfigView| ref_error(numbered, switch);
        assert(error_of(switches[i]) is None);
        assert(ref_error(numbered, declared) is None);
        if let Some(play) = declared.play {
            lemma_last_where(numbered.len() as int, |b: int| numbered[b].id == play.bank);
            let b = bank_named(numbered, play.bank)->0;
            lemma_last_where(
                numbered[b].samples.len() as int,
                |s: int| numbered[b].samples[s].id == play.sample,
            );
            let s = sample_named(numbered[b].samples, play.sample)->0;
            assert(banks[b].samples.len() <= usize::MAX);
            assert(sample_ref_of(numbered, play.bank, play.sample) == Ok::<
                BankSampleRef,
                ConfigErrorView,
            >(numbered[b].samples[s].bank_sample_ref));
            assert(config.switches[i].play->0.bank_sample_ref
                == numbered[b].samples[s].bank_sample_ref);
            assert(sample_in_range(config.banks, config.switches[i].play->0.bank_sample_ref));
        }
        if let Some(play) = declared.play_random {
            lemma_last_where(numbered.len() as int, |b: int| numbered[b].id == play.bank);
        }
        if let Some(play) = declared.play_step {
            lemma_last_where(numbered.len() as int, |b: int| numbered[b].id == play.bank);
        }
    }
}

impl Config {
    /// Resolves the name of the keyboard key of every switch.
    fn resolve_keyboard_keys(&mut self) -> (result: Result<(), ConfigError>)
        ensures
            final(self).resolve_path == old(self).resolve_path,
            final(self).lookup_tables == old(self).lookup_tables,
            final(self).banks == old(self).banks,
            final(self)@.switches.len() == old(self)@.switches.len(),
            match result {
                Ok(()) => {
                    &&& first_key_error(old(self)@.switches) is None
                    &&& forall|i: int|
                        0 <= i < old(self)@.switches.len() ==> #[trigger] final(self)@.switches[i]
                            == with_key_code(old(self)@.switches[i])
                },
                Err(error) => first_key_error(old(self)@.switches) == Some(error@),
            },
    {
        let ghost before = self@.switches;
        let ghost error_of = |switch: SwitchConfigView| key_error(switch);
        let mut switch_index: usize = 0;
        while switch_index < self.switches.len()
            invariant
                switch_index <= self.switches@.len(),
                self.switches@.len() == before.len(),
                before == old(self)@.switches,
                self.banks == old(self).banks,
                self.resolve_path == old(self).resolve_path,
                self.lookup_tables == old(self).lookup_tables,
                error_of == |switch: SwitchConfigView| key_error(switch),
                forall|i: int| 0 <= i < switch_index ==> (#[trigger] error_of(before[i])) is None,
                forall|i: int|
                    0 <= i < switch_index ==> (#[trigger] self.switches@[i])@ == with_key_code(
                        before[i],
                    ),
                forall|i: int|
                    switch_index <= i < before.len() ==> (#[trigger] self.switches@[i])@
                        == before[i],
            decreases self.switches@.len() - switch_index,
        {
            match resolve_switch_key(&mut self.switches[switch_index]) {
                Ok(()) => {},
                Err(error) => {
                    proof {
                        lemma_first_error_at(before, error_of, switch_index as int);
                    }
                    return Err(error);
                },
            }
            switch_index += 1;
        }
        proof {
            lemma_first_error_none(before, error_of);
        }
        Ok(())
    }

    /// Builds the table from each keyboard key to the switch that it
    /// triggers: a later switch takes a key from an earlier one.
    fn resolve_keyboard_key_to_switch_lookup_table(&mut self)
        requires
            forall|i: int|
                0 <= i < old(self)@.switches.len() ==> (#[trigger] old(
                    self,
                )@.switches[i]).switch_ref.switch_index == i,
        ensures
            final(self).resolve_path == old(self).resolve_path,
            final(self).banks == old(self).banks,
            final(self).switches == old(self).switches,
            final(self).lookup_tables.gamepad_button_to_switch_lookup_table == old(
                self,
            ).lookup_tables.gamepad_button_to_switch_lookup_table,
            final(self).lookup_tables.sample_to_switch_play == old(
                self,
            ).lookup_tables.sample_to_switch_play,
            final(self).lookup_tables.empty_switch_ref_vec == old(
                self,
            ).lookup_tables.empty_switch_ref_vec,
            keyboard_agrees(
                final(self).lookup_tables.keyboard_key_to_switch_lookup_table@,
                final(self)@.switches,
                final(self)@.switches.len() as int,
            ),
    {
        broadcast use group_hash_axioms;

        let ghost switches = self@.switches;
        let mut lookup_table: HashMap<usize, SwitchRef> = HashMap::new();
        let mut switch_index: usize = 0;
        while switch_index < self.switches.len()
            invariant
                switch_index <= self.switches@.len(),
                switches == self@.switches,
                forall|i: int|
                    0 <= i < switches.len() ==> (#[trigger] switches[i]).switch_ref.switch_index == i,
                keyboard_agrees(lookup_table@, switches, switch_index as int),
            decreases self.switches@.len() - switch_index,
        {
            let ghost bound = switches[switch_index as int];
            assert(bound == self.switches@[switch_index as int]@);
            if let Some(key_code) = self.switches[switch_index].key_code {
                lookup_table.insert(key_code.code(), self.switches[switch_index].switch_ref);
            }
            proof {
                assert forall|key: KeyCode|
                    match #[trigger] keyboard_switch_below(switches, key, switch_index + 1) {
                        Some(i) => lookup_table@.contains_key(key.spec_code() as usize)
                            && lookup_table@[key.spec_code() as usize].switch_index == i,
                        None => !lookup_table@.contains_key(key.spec_code() as usize),
                    } by {
                    // different keys have different numbers
                    key.lemma_code_at();
                    if let Some(key_code) = bound.key_code {
                        key_code.lemma_code_at();
                    }
                    assert(keyboard_switch_below(switches, key, switch_index as int) == last_where(
                        switch_index as int,
                        |i: int| switches[i].key_code == Some(key),
                    ));
                }
            }
            switch_index += 1;
        }
        self.lookup_tables.keyboard_key_to_switch_lookup_table = lookup_table;
    }

    fn resolve_gamepad_button_to_switch_lookup_table(&mut self)
        requires
            forall|i: int|
                0 <= i < old(self)@.switches.len() ==> (#[trigger] old(
                    self,
                )@.switches[i]).switch_ref.switch_index == i,
        ensures
            final(self).resolve_path == old(self).resolve_path,
            final(self).banks == old(self).banks,
            final(self).switches == old(self).switches,
            final(self).lookup_tables.keyboard_key_to_switch_lookup_table == old(
                self,
            ).lookup_tables.keyboard_key_to_switch_lookup_table,
            final(self).lookup_tables.sample_to_switch_play == old(
                self,
            ).lookup_tables.sample_to_switch_play,
            final(self).lookup_tables.empty_switch_ref_vec == old(
                self,
            ).lookup_tables.empty_switch_ref_vec,
            gamepad_agrees(
                final(self).lookup_tables.gamepad_button_to_switch_lookup_table@,
                final(self)@.switches,
                final(self)@.switches.len() as int,
            ),
    {
        broadcast use group_hash_axioms;

        let ghost switches = self@.switches;
        let mut lookup_table: HashMap<u128, HashMap<usize, SwitchRef>> = HashMap::new();
        let mut switch_index: usize = 0;
        while switch_index < self.switches.len()
            invariant
                switch_index <= self.switches@.len(),
                switches == self@.switches,
                forall|i: int|
                    0 <= i < switches.len() ==> (#[trigger] switches[i]).switch_ref.switch_index == i,
                gamepad_agrees(lookup_table@, switches, switch_index as int),
            decreases self.switches@.len() - switch_index,
        {
            let ghost bound = switches[switch_index as int];
            assert(bound == self.switches@[switch_index as int]@);
            if let Some(gamepad) = &self.switches[switch_index].gamepad {
                let device = device_number(gamepad.device_id);
                let code = gamepad.gilrs_button.code();
                let mut map = match lookup_table.remove(&device) {
                    Some(map) => map,
                    None => HashMap::new(),
                };
                map.insert(code, self.switches[switch_index].switch_ref);
                lookup_table.insert(device, map);
            }
            proof {
                assert forall|device_id: Option<usize>, other: Button|
                    match #[trigger] button_switch_below(
                        switches,
                        device_id,
                        other,
                        switch_index + 1,
                    ) {
                        Some(i) => {
                            &&& lookup_table@.contains_key(device_key(device_id))
                            &&& lookup_table@[device_key(device_id)]@.contains_key(
                                other.spec_code() as usize,
                            )
                            &&& lookup_table@[device_key(
                                device_id,
                            )]@[other.spec_code() as usize].switch_index == i
                        },
                        None => !(lookup_table@.contains_key(device_key(device_id))
                            && lookup_table@[device_key(device_id)]@.contains_key(
                            other.spec_code() as usize,
                        )),
                    } by {
                    // different buttons and different device filters have different numbers
                    other.lemma_code_at();
                    if let Some(gamepad) = bound.gamepad {
                        gamepad.gilrs_button.lemma_code_at();
                        assert(bound_to_button(bound, device_id, other) <==> (device_key(device_id)
                            == device_key(gamepad.device_id) && other.spec_code()
                            == gamepad.gilrs_button.spec_code()));
                    }
                    assert(button_switch_below(switches, device_id, other, switch_index as int)
                        == last_where(
                        switch_index as int,
                        |i: int| bound_to_button(switches[i], device_id, other),
                    ));
                }
            }
            switch_index += 1;
        }
        self.lookup_tables.gamepad_button_to_switch_lookup_table = lookup_table;
    }
}


impl Config {
    fn resolve_sample_to_switch_play_lookup_table(&mut self)
        requires
            old(self)@.wf(),
        ensures
            final(self).resolve_path == old(self).resolve_path,
            final(self).banks == old(self).banks,
            final(self).switches == old(self).switches,
            final(self).lookup_tables.keyboard_key_to_switch_lookup_table == old(
                self,
            ).lookup_tables.keyboard_key_to_switch_lookup_table,
            final(self).lookup_tables.gamepad_button_to_switch_lookup_table == old(
                self,
            ).lookup_tables.gamepad_button_to_switch_lookup_table,
            final(self).lookup_tables.empty_switch_ref_vec == old(
                self,
            ).lookup_tables.empty_switch_ref_vec,
            plays_agree(
                final(self).lookup_tables.sample_to_switch_play@,
                final(self)@.banks,
                final(self)@.switches,
                final(self)@.switches.len() as int,
            ),
    {
        let ghost banks = self@.banks;
        let ghost switches = self@.switches;
        let mut lookup_table: Vec<Vec<Vec<SwitchRef>>> = Vec::new();
        let mut bank_index: usize = 0;
        while bank_index < self.banks.len()
            invariant
                bank_index <= self.banks@.len(),
                banks == self@.banks,
                lookup_table@.len() == bank_index,
                forall|b: int|
                    0 <= b < bank_index ==> (#[trigger] lookup_table@[b])@.len()
                        == banks[b].samples.len(),
                forall|b: int, s: int|
                    0 <= b < bank_index && 0 <= s < banks[b].samples.len() ==> (
                    #[trigger] lookup_table@[b]@[s])@.len() == 0,
            decreases self.banks@.len() - bank_index,
        {
            let mut lists: Vec<Vec<SwitchRef>> = Vec::new();
            let mut sample_index: usize = 0;
            while sample_index < self.banks[bank_index].samples.len()
                invariant
                    bank_index < self.banks@.len(),
                    sample_index <= self.banks@[bank_index as int].samples@.len(),
                    lists@.len() == sample_index,
                    forall|s: int| 0 <= s < sample_index ==> (#[trigger] lists@[s])@.len() == 0,
                decreases self.banks@[bank_index as int].samples@.len() - sample_index,
            {
                lists.push(Vec::new());
                sample_index += 1;
            }
            lookup_table.push(lists);
            bank_index += 1;
        }
        assert forall|b: int| 0 <= b < banks.len() implies (#[trigger] banks[b]).samples.len()
            <= usize::MAX by {
            assert(self.banks@[b].samples@.len() == self.banks@[b].samples.len());
        }
        assert(plays_agree(lookup_table@, banks, switches, 0)) by {
            assert forall|b: int, s: int|
                0 <= b < banks.len() && 0 <= s < banks[b].samples.len() implies (
            #[trigger] lookup_table@[b]@[s])@ == Seq::<SwitchRef>::empty() by {
                assert(lookup_table@[b]@[s]@ =~= Seq::<SwitchRef>::empty());
            }
        }
        let mut switch_index: usize = 0;
        while switch_index < self.switches.len()
            invariant
                switch_index <= self.switches@.len(),
                banks == self@.banks,
                switches == self@.switches,
                self@.wf(),
                forall|b: int| 0 <= b < banks.len() ==> (#[trigger] banks[b]).samples.len() <= usize::MAX,
                plays_agree(lookup_table@, banks, switches, switch_index as int),
            decreases self.switches@.len() - switch_index,
        {
            let ghost playing = switches[switch_index as int];
            assert(playing == self.switches@[switch_index as int]@);
            assert(switch_refs_valid(banks, playing, switch_index as int));
            let ghost earlier = lookup_table@;
            if let Some(play) = &self.switches[switch_index].play {
                let played = play.bank_sample_ref;
                lookup_table[played.bank.bank_index][played.sample.sample_index].push(
                    self.switches[switch_index].switch_ref,
                );
            }
            proof {
                assert forall|b: int, s: int|
                    0 <= b < banks.len() && 0 <= s < banks[b].samples.len() implies (
                #[trigger] lookup_table@[b]@[s])@ == switches_playing_below(
                    switches,
                    BankSampleRef {
                        bank: BankRef { bank_index: b as usize },
                        sample: SampleRef { sample_index: s as usize },
                    },
                    switch_index + 1,
                ) by {
                    let sample = BankSampleRef {
                        bank: BankRef { bank_index: b as usize },
                        sample: SampleRef { sample_index: s as usize },
                    };
                    assert(earlier[b]@.len() == banks[b].samples.len());
                    assert(earlier[b]@[s]@ == switches_playing_below(
                        switches,
                        sample,
                        switch_index as int,
                    ));
                }
            }
            switch_index += 1;
        }
        self.lookup_tables.sample_to_switch_play = lookup_table;
    }

    /// Resolves the declared banks and switches into a configuration: gives
    /// every bank, sample and switch the reference of its place, replaces
    /// identifiers by references, then key names by keys, then button names
    /// by buttons, resolves the sample files against `resolve_path`, and
    /// builds the lookup tables. The first step that fails gives the error.
    pub fn resolve(banks: Vec<BankConfig>, switches: Vec<SwitchConfig>, resolve_path: Option<String>) -> (result:
        Result<Config, ConfigError>)
        ensures
            match result {
                Ok(config) => {
                    &&& resolution_error(views(banks@), views(switches@)) is None
                    &&& config@ == resolved_config(
                        views(banks@),
                        views(switches@),
                        option_view(resolve_path),
                    )
                    &&& config.wf()
                },
                Err(error) => resolution_error(views(banks@), views(switches@)) == Some(error@),
            },
    {
        let ghost declared_banks = views(banks@);
        let ghost declared = views(switches@);
        let ghost base = option_view(resolve_path);
        let ghost numbered = numbered_banks(declared_banks);
        let mut config = Config { banks, switches, resolve_path, lookup_tables: LookupTables::new() };
        match config.resolve_refs() {
            Ok(()) => {},
            Err(error) => {
                return Err(error);
            },
        }
        let ghost with_references = config@.switches;
        config.resolve_bank_paths();
        proof {
            assert(config@.switches == with_references);
            assert(fits_in_memory(declared_banks, declared)) by {
                assert(banks@.len() == banks.len());
                assert(switches@.len() == switches.len());
                assert forall|b: int| 0 <= b < declared_banks.len() implies (
                #[trigger] declared_banks[b]).samples.len() <= usize::MAX by {
                    assert(banks@[b].samples@.len() == banks@[b].samples.len());
                }
            }
            // the references of a switch have no part in the error of its key
            lemma_first_error_agree(
                with_references,
                declared,
                |switch: SwitchConfigView| key_error(switch),
            );
        }
        match config.resolve_keyboard_keys() {
            Ok(()) => {},
            Err(error) => {
                return Err(error);
            },
        }
        let ghost with_keys = config@.switches;
        proof {
            // nor have its references and its key in the error of its button
            lemma_first_error_agree(
                with_keys,
                declared,
                |switch: SwitchConfigView| gamepad_error(switch),
            );
        }
        match config.resolve_gamepad_button_mappings() {
            Ok(()) => {},
            Err(error) => {
                return Err(error);
            },
        }
        proof {
            assert forall|i: int| 0 <= i < config@.switches.len() implies (
            #[trigger] config@.switches[i]).switch_ref.switch_index == i by {
                assert(with_references[i] == with_refs(numbered, declared[i], i));
                assert(with_keys[i] == with_key_code(with_references[i]));
                assert(config@.switches[i] == with_button(with_keys[i]));
            }
            assert(config@.banks =~= resolved_config(declared_banks, declared, base).banks);
            assert(config@.switches =~= resolved_config(declared_banks, declared, base).switches);
            lemma_resolved_refs_valid(declared_banks, declared, base);
        }
        config.resolve_keyboard_key_to_switch_lookup_table();
        config.resolve_gamepad_button_to_switch_lookup_table();
        config.resolve_sample_to_switch_play_lookup_table();
        Ok(config)
    }

    /// The switch that a keyboard key triggers.
    pub fn find_switch_for_keyboard_key(&self, key: KeyCode) -> (found: Option<&SwitchConfig>)
        requires
            self.wf(),
        ensures
            match keyboard_switch(self@.switches, key) {
                Some(i) => 0 <= i < self.switches@.len() && found == Some(&self.switches@[i]),
                None => found is None,
            },
    {
        broadcast use group_hash_axioms;

        proof {
            lemma_last_where(
                self@.switches.len() as int,
                |i: int| self@.switches[i].key_code == Some(key),
            );
        }
        let code = key.code();
        match self.lookup_tables.keyboard_key_to_switch_lookup_table.get(&code) {
            Some(switch_ref) => Some(&self.switches[switch_ref.switch_index]),
            None => None,
        }
    }

    /// The switch that a button of a gamepad triggers: one bound to the button
    /// for that very device first, one bound to it for any device otherwise.
    pub fn find_switch_for_gamepad_button(&self, device_id: usize, button: Button) -> (found: Option<
        &SwitchConfig,
    >)
        requires
            self.wf(),
        ensures
            match gamepad_switch(self@.switches, device_id, button) {
                Some(i) => 0 <= i < self.switches@.len() && found == Some(&self.switches@[i]),
                None => found is None,
            },
    {
        broadcast use group_hash_axioms;

        proof {
            lemma_last_where(
                self@.switches.len() as int,
                |i: int| bound_to_button(self@.switches[i], Some(device_id), button),
            );
            lemma_last_where(
                self@.switches.len() as int,
                |i: int| bound_to_button(self@.switches[i], None, button),
            );
        }
        let code = button.code();
        let table = &self.lookup_tables.gamepad_button_to_switch_lookup_table;
        // first try to find a switch configured for this very device
        let device = device_number(Some(device_id));
        let switch_ref = match table.get(&device) {
            Some(map) => map.get(&code),
            None => None,
        };
        // then try to find a switch configured for all devices
        let switch_ref = match switch_ref {
            Some(switch_ref) => Some(switch_ref),
            None => {
                let any_device = device_number(None);
                match table.get(&any_device) {
                    Some(map) => map.get(&code),
                    None => None,
                }
            },
        };
        match switch_ref {
            Some(switch_ref) => Some(&self.switches[switch_ref.switch_index]),
            None => None,
        }
    }

    /// The switches that play exactly this sample, in declaration order.
    pub fn find_switch_play_for_sample(&self, bank_sample_ref: BankSampleRef) -> (found: &Vec<
        SwitchRef,
    >)
        requires
            self.wf(),
        ensures
            found@ == switches_playing(self@.switches, bank_sample_ref),
    {
        let table = &self.lookup_tables.sample_to_switch_play;
        let bank_index = bank_sample_ref.bank.bank_index;
        let sample_index = bank_sample_ref.sample.sample_index;
        if bank_index < table.len() && sample_index < table[bank_index].len() {
            &table[bank_index][sample_index]
        } else {
            proof {
                lemma_nothing_plays_outside(
                    self@,
                    bank_sample_ref,
                    self@.switches.len() as int,
                );
                assert(self.lookup_tables.empty_switch_ref_vec@ =~= Seq::<SwitchRef>::empty());
            }
            &self.lookup_tables.empty_switch_ref_vec
        }
    }

    /// The switch at a reference.
    pub fn switch(&self, switch_ref: SwitchRef) -> (switch: &SwitchConfig)
        requires
            switch_ref.switch_index < self.switches@.len(),
        ensures
            *switch == self.switches@[switch_ref.switch_index as int],
    {
        &self.switches[switch_ref.switch_index]
    }

    /// The bank at a reference.
    pub fn bank(&self, bank_ref: BankRef) -> (bank: &BankConfig)
        requires
            bank_ref.bank_index < self.banks@.len(),
        ensures
            *bank == self.banks@[bank_ref.bank_index as int],
    {
        &self.banks[bank_ref.bank_index]
    }

    /// The bank and the sample at a reference.
    pub fn sample(&self, bank_sample_ref: BankSampleRef) -> (found: (&BankConfig, &SampleConfig))
        requires
            bank_sample_ref.bank.bank_index < self.banks@.len(),
            bank_sample_ref.sample.sample_index
                < self.banks@[bank_sample_ref.bank.bank_index as int].samples@.len(),
        ensures
            *found.0 == self.banks@[bank_sample_ref.bank.bank_index as int],
            *found.1
                == self.banks@[bank_sample_ref.bank.bank_index as int].samples@[bank_sample_ref.sample.sample_index as int],
    {
        let bank = self.bank(bank_sample_ref.bank);
        let sample = bank.sample(bank_sample_ref.sample);
        (bank, sample)
    }
}


/// A keyboard key that no switch is bound to triggers no switch.
pub proof fn lemma_unbound_key_triggers_nothing(switches: Seq<SwitchConfigView>, key: KeyCode)
    requires
        forall|i: int| 0 <= i < switches.len() ==> (#[trigger] switches[i]).key_code != Some(key),
    ensures
        keyboard_switch(switches, key) is None,
{
    lemma_last_where(switches.len() as int, |i: int| switches[i].key_code == Some(key));
}

/// A keyboard key triggers the last switch that is bound to it: a switch
/// declared later takes the key from every switch declared before it.
pub proof fn lemma_later_key_binding_wins(switches: Seq<SwitchConfigView>, key: KeyCode, earlier: int, later: int)
    requires
        0 <= earlier < later < switches.len(),
        switches[earlier].key_code == Some(key),
        switches[later].key_code == Some(key),
    ensures
        keyboard_switch(switches, key) is Some,
        keyboard_switch(switches, key)->0 >= later,
        switches[keyboard_switch(switches, key)->0].key_code == Some(key),
        (forall|i: int| later < i < switches.len() ==> (#[trigger] switches[i]).key_code != Some(key))
            ==> keyboard_switch(switches, key) == Some(later),
{
    lemma_last_where(switches.len() as int, |i: int| switches[i].key_code == Some(key));
    let holds = |i: int| switches[i].key_code == Some(key);
    assert(holds(later));
}

/// A button triggers, on a device for which a switch is bound to it, the
/// last such switch, whatever is bound to the button for any device.
pub proof fn lemma_device_binding_preferred(
    switches: Seq<SwitchConfigView>,
    device_id: usize,
    button: Button,
    specific: int,
)
    requires
        0 <= specific < switches.len(),
        bound_to_button(switches[specific], Some(device_id), button),
        forall|i: int|
            specific < i < switches.len() ==> !bound_to_button(
                #[trigger] switches[i],
                Some(device_id),
                button,
            ),
    ensures
        gamepad_switch(switches, device_id, button) == Some(specific),
{
    let holds = |i: int| bound_to_button(switches[i], Some(device_id), button);
    assert forall|j: int| specific < j < switches.len() implies !#[trigger] holds(j) by {
        assert(!bound_to_button(switches[j], Some(device_id), button));
    }
    crate::text::lemma_last_where_is(switches.len() as int, holds, specific);
}

/// A button triggers, on a device for which no switch is bound to it, the
/// last switch that is bound to it for any device.
pub proof fn lemma_wildcard_binding_is_fallback(
    switches: Seq<SwitchConfigView>,
    device_id: usize,
    button: Button,
    wildcard: int,
)
    requires
        0 <= wildcard < switches.len(),
        bound_to_button(switches[wildcard], None, button),
        forall|i: int|
            wildcard < i < switches.len() ==> !bound_to_button(#[trigger] switches[i], None, button),
        forall|i: int|
            0 <= i < switches.len() ==> !bound_to_button(
                #[trigger] switches[i],
                Some(device_id),
                button,
            ),
    ensures
        gamepad_switch(switches, device_id, button) == Some(wildcard),
{
    let specific = |i: int| bound_to_button(switches[i], Some(device_id), button);
    lemma_last_where(switches.len() as int, specific);
    if last_where(switches.len() as int, specific) is Some {
        let i = last_where(switches.len() as int, specific)->0;
        assert(specific(i));
        assert(!bound_to_button(switches[i], Some(device_id), button));
    }
    let holds = |i: int| bound_to_button(switches[i], None, button);
    assert forall|j: int| wildcard < j < switches.len() implies !#[trigger] holds(j) by {
        assert(!bound_to_button(switches[j], None, button));
    }
    crate::text::lemma_last_where_is(switches.len() as int, holds, wildcard);
}

/// A button that no switch is bound to triggers no switch on any device.
pub proof fn lemma_unbound_button_triggers_nothing(
    switches: Seq<SwitchConfigView>,
    device_id: usize,
    button: Button,
)
    requires
        forall|i: int|
            0 <= i < switches.len() ==> !((#[trigger] switches[i]).gamepad matches Some(gamepad)
                && gamepad.gilrs_button == button),
    ensures
        gamepad_switch(switches, device_id, button) is None,
{
    lemma_last_where(
        switches.len() as int,
        |i: int| bound_to_button(switches[i], Some(device_id), button),
    );
    lemma_last_where(switches.len() as int, |i: int| bound_to_button(switches[i], None, button));
}

/// An identifier that names no bank is refused with the error that carries
/// exactly that identifier.
pub proof fn lemma_unknown_bank_refused(banks: Seq<BankConfigView>, bank_id: Seq<char>, sample_id: Seq<char>)
    requires
        forall|b: int| 0 <= b < banks.len() ==> (#[trigger] banks[b]).id != bank_id,
    ensures
        bank_ref_of(banks, bank_id) == Err::<BankRef, ConfigErrorView>(
            ConfigErrorView::UnknownBankId { bank: bank_id },
        ),
        sample_ref_of(banks, bank_id, sample_id) == Err::<BankSampleRef, ConfigErrorView>(
            ConfigErrorView::UnknownBankId { bank: bank_id },
        ),
{
    lemma_last_where(banks.len() as int, |b: int| banks[b].id == bank_id);
}

/// An identifier that names no sample of a bank that exists is refused with
/// the error that carries the identifiers of both.
pub proof fn lemma_unknown_sample_refused(banks: Seq<BankConfigView>, bank_id: Seq<char>, sample_id: Seq<char>)
    requires
        bank_named(banks, bank_id) is Some,
        forall|s: int|
            0 <= s < banks[bank_named(banks, bank_id)->0].samples.len() ==> (
            #[trigger] banks[bank_named(banks, bank_id)->0].samples[s]).id != sample_id,
    ensures
        sample_ref_of(banks, bank_id, sample_id) == Err::<BankSampleRef, ConfigErrorView>(
            ConfigErrorView::UnknownSampleId { bank: bank_id, sample: sample_id },
        ),
{
    let b = bank_named(banks, bank_id)->0;
    lemma_last_where(banks[b].samples.len() as int, |s: int| banks[b].samples[s].id == sample_id);
}

/// A configuration is refused exactly when a switch carries an identifier
/// that names nothing, or the name of a button or key that is not known.
pub proof fn lemma_refused_iff_some_error(banks: Seq<BankConfigView>, switches: Seq<SwitchConfigView>)
    ensures
        resolution_error(banks, switches) is None <==> forall|i: int|
            0 <= i < switches.len() ==> {
                &&& ref_error(numbered_banks(banks), #[trigger] switches[i]) is None
                &&& gamepad_error(switches[i]) is None
                &&& key_error(switches[i]) is None
            },
{
    let numbered = numbered_banks(banks);
    let refs = |i: int| (|switch: SwitchConfigView| ref_error(numbered, switch))(switches[i]) is Some;
    let buttons = |i: int| (|switch: SwitchConfigView| gamepad_error(switch))(switches[i]) is Some;
    let keys = |i: int| (|switch: SwitchConfigView| key_error(switch))(switches[i]) is Some;
    lemma_first_where(switches.len() as int, refs);
    lemma_first_where(switches.len() as int, buttons);
    lemma_first_where(switches.len() as int, keys);
    if resolution_error(banks, switches) is None {
        assert forall|i: int| 0 <= i < switches.len() implies {
            &&& ref_error(numbered, #[trigger] switches[i]) is None
            &&& gamepad_error(switches[i]) is None
            &&& key_error(switches[i]) is None
        } by {
            assert(!refs(i));
            assert(!buttons(i));
            assert(!keys(i));
        }
    }
}

/// A switch that plays a random sample of a bank that is not declared is
/// refused with the error that carries exactly the identifier it gave.
pub proof fn lemma_undeclared_random_bank_refused(banks: Seq<BankConfigView>, switch: SwitchConfigView)
    requires
        switch.play is None,
        switch.play_random is Some,
        forall|b: int| 0 <= b < banks.len() ==> (#[trigger] banks[b]).id != switch.play_random->0.bank,
    ensures
        ref_error(banks, switch) == Some(
            ConfigErrorView::UnknownBankId { bank: switch.play_random->0.bank },
        ),
{
    lemma_unknown_bank_refused(banks, switch.play_random->0.bank, Seq::empty());
}

/// A switch that plays a sample which its bank does not declare is refused
/// with the error that carries the identifiers of the bank and the sample.
pub proof fn lemma_undeclared_sample_refused(banks: Seq<BankConfigView>, switch: SwitchConfigView)
    requires
        switch.play is Some,
        bank_named(banks, switch.play->0.bank) is Some,
        forall|s: int|
            0 <= s < banks[bank_named(banks, switch.play->0.bank)->0].samples.len() ==> (
            #[trigger] banks[bank_named(banks, switch.play->0.bank)->0].samples[s]).id
                != switch.play->0.sample,
    ensures
        ref_error(banks, switch) == Some(
            ConfigErrorView::UnknownSampleId {
                bank: switch.play->0.bank,
                sample: switch.play->0.sample,
            },
        ),
{
    lemma_unknown_sample_refused(banks, switch.play->0.bank, switch.play->0.sample);
}

/// A configuration is refused with the error of the first switch that
/// carries an identifier which names nothing.
pub proof fn lemma_first_undeclared_refuses(
    banks: Seq<BankConfigView>,
    switches: Seq<SwitchConfigView>,
    first: int,
)
    requires
        0 <= first < switches.len(),
        ref_error(numbered_banks(banks), switches[first]) is Some,
        forall|i: int|
            0 <= i < first ==> ref_error(numbered_banks(banks), #[trigger] switches[i]) is None,
    ensures
        resolution_error(banks, switches) == ref_error(numbered_banks(banks), switches[first]),
{
    let numbered = numbered_banks(banks);
    let error_of = |switch: SwitchConfigView| ref_error(numbered, switch);
    assert forall|j: int| 0 <= j < first implies (#[trigger] error_of(switches[j])) is None by {
        assert(ref_error(numbered, switches[j]) is None);
    }
    lemma_first_error_at(switches, error_of, first);
}

/// Key names are resolved before button names: where every identifier names
/// something and a key name is not known, the configuration is refused for
/// the first such key name, whatever the button names are.
pub proof fn lemma_unknown_key_before_unknown_button(
    banks: Seq<BankConfigView>,
    switches: Seq<SwitchConfigView>,
    first: int,
)
    requires
        first_ref_error(numbered_banks(banks), switches) is None,
        0 <= first < switches.len(),
        key_error(switches[first]) is Some,
        forall|i: int| 0 <= i < first ==> key_error(#[trigger] switches[i]) is None,
    ensures
        resolution_error(banks, switches) == Some(
            ConfigErrorView::UnknownKeyboardButton {
                button: switches[first].key->0,
                allowed_values: joined(valid_key_names(), ", "@),
            },
        ),
{
    let error_of = |switch: SwitchConfigView| key_error(switch);
    assert forall|j: int| 0 <= j < first implies (#[trigger] error_of(switches[j])) is None by {
        assert(key_error(switches[j]) is None);
    }
    lemma_first_error_at(switches, error_of, first);
}

} // verus!
