//! The state of the play buttons: one button for each switch, which shows for
//! a while that the sample of its switch was played, and which presses its
//! switch once for each press of its key.
//!
//! Times are milliseconds on a clock of the caller that never runs backwards.

use crate::config::keyboard_switch;
use crate::config::plays_sample;
use crate::config::switches_playing_below;
use crate::config::BankSampleRef;
use crate::config::Config;
use crate::config::ConfigView;
use crate::config::SwitchRef;
use crate::keys::KeyCode;
use vstd::prelude::*;

verus! {

/// For how many milliseconds a button shows that its sample was played.
pub const BUTTON_PLAY_FEEDBACK_DURATION: u128 = 1000;

/// What the look of a play button depends on.
#[derive(Debug, Copy, Clone, PartialEq, Eq, Structural)]
pub struct ButtonStyleSheet {
    /// How long ago the sample of the button was played, if ever.
    pub last_played_ago: Option<u128>,
}

impl ButtonStyleSheet {
    /// How far the highlight of the button has faded, from 0, just played, to
    /// `BUTTON_PLAY_FEEDBACK_DURATION`, no highlight: the time since the sample
    /// was played, as far as the highlight lasts.
    pub open spec fn spec_play_feedback_progress(self) -> int {
        match self.last_played_ago {
            None => BUTTON_PLAY_FEEDBACK_DURATION as int,
            Some(last_played_ago) => if last_played_ago >= BUTTON_PLAY_FEEDBACK_DURATION {
                BUTTON_PLAY_FEEDBACK_DURATION as int
            } else {
                last_played_ago as int
            },
        }
    }

    /// How far the highlight of the button has faded.
    pub fn play_feedback_progress(&self) -> (progress: u128)
        ensures
            progress == self.spec_play_feedback_progress(),
            progress <= BUTTON_PLAY_FEEDBACK_DURATION,
    {
        match self.last_played_ago {
            None => BUTTON_PLAY_FEEDBACK_DURATION,
            Some(last_played_ago) => {
                if last_played_ago >= BUTTON_PLAY_FEEDBACK_DURATION {
                    BUTTON_PLAY_FEEDBACK_DURATION
                } else {
                    last_played_ago
                }
            },
        }
    }
}

/// The state of the play button of one switch.
#[derive(Debug, PartialEq, Eq)]
pub struct PlayButtonState {
    pub switch_title: String,
    /// Is the keyboard key currently down? A sample should only play for a
    /// single press, without repeating.
    pub key_held_down: bool,
    /// The last time that the sample which the switch plays was played.
    pub last_played_at: Option<u128>,
}

pub struct PlayButtonStateView {
    pub switch_title: Seq<char>,
    pub key_held_down: bool,
    pub last_played_at: Option<u128>,
}

impl View for PlayButtonState {
    type V = PlayButtonStateView;

    open spec fn view(&self) -> PlayButtonStateView {
        PlayButtonStateView {
            switch_title: self.switch_title@,
            key_held_down: self.key_held_down,
            last_played_at: self.last_played_at,
        }
    }
}

impl PlayButtonState {
    /// The style of the button at the time `now`.
    pub fn stylesheet(&self, now: u128) -> (stylesheet: ButtonStyleSheet)
        ensures
            stylesheet.last_played_ago == match self.last_played_at {
                Some(at) => Some(
                    if now >= at {
                        (now - at) as u128
                    } else {
                        0
                    },
                ),
                None => None,
            },
    {
        ButtonStyleSheet {
            last_played_ago: match self.last_played_at {
                Some(at) => Some(
                    if now >= at {
                        now - at
                    } else {
                        0
                    },
                ),
                None => None,
            },
        }
    }
}

/// The reference of the switch at place `i`.
pub open spec fn switch_at(i: int) -> SwitchRef {
    SwitchRef { switch_index: i as usize }
}

/// The buttons of a configuration before anything happened: one for each
/// switch, with its title.
pub fn play_buttons(config: &Config) -> (buttons: Vec<PlayButtonState>)
    ensures
        buttons@.len() == config@.switches.len(),
        forall|i: int|
            0 <= i < buttons@.len() ==> (#[trigger] buttons@[i])@ == (PlayButtonStateView {
                switch_title: config@.switches[i].title,
                key_held_down: false,
                last_played_at: None,
            }),
{
    let mut buttons: Vec<PlayButtonState> = Vec::new();
    let mut switch_index: usize = 0;
    while switch_index < config.switches.len()
        invariant
            switch_index <= config.switches@.len(),
            buttons@.len() == switch_index,
            forall|i: int|
                0 <= i < switch_index ==> (#[trigger] buttons@[i])@ == (PlayButtonStateView {
                    switch_title: config@.switches[i].title,
                    key_held_down: false,
                    last_played_at: None,
                }),
        decreases config.switches@.len() - switch_index,
    {
        buttons.push(
            PlayButtonState {
                switch_title: config.switches[switch_index].title.clone(),
                key_held_down: false,
                last_played_at: None,
            },
        );
        switch_index += 1;
    }
    buttons
}

/// The references among the first `limit` switches that play a sample are
/// those of the switches that play it.
pub proof fn lemma_switches_playing(config: ConfigView, sample: BankSampleRef, limit: int, i: int)
    requires
        config.wf(),
        0 <= limit <= config.switches.len(),
        0 <= i < config.switches.len(),
        config.switches.len() <= usize::MAX,
    ensures
        switches_playing_below(config.switches, sample, limit).contains(
            SwitchRef { switch_index: i as usize },
        ) <==> i < limit && plays_sample(config.switches[i], sample),
        forall|k: int|
            0 <= k < switches_playing_below(config.switches, sample, limit).len() ==> (
            #[trigger] switches_playing_below(config.switches, sample, limit)[k]).switch_index
                < limit,
    decreases limit,
{
    if limit > 0 {
        lemma_switches_playing(config, sample, limit - 1, i);
        let earlier = switches_playing_below(config.switches, sample, limit - 1);
        let wanted = SwitchRef { switch_index: i as usize };
        let last = config.switches[limit - 1];
        assert(crate::config::switch_refs_valid(config.banks, last, limit - 1));
        if plays_sample(last, sample) {
            let all = earlier.push(last.switch_ref);
            if i == limit - 1 {
                assert(all[earlier.len() as int] == wanted);
            } else if earlier.contains(wanted) {
                let k = choose|k: int| 0 <= k < earlier.len() && earlier[k] == wanted;
                assert(all[k] == wanted);
            } else if all.contains(wanted) {
                let k = choose|k: int| 0 <= k < all.len() && all[k] == wanted;
                assert(all[earlier.len() as int].switch_index == limit - 1);
                assert(earlier[k] == wanted);
            }
        }
    }
}

/// Records that a sample was played at the time `now`: on the button of
/// every switch that plays exactly this sample.
pub fn sample_played(
    buttons: &mut Vec<PlayButtonState>,
    config: &Config,
    bank_sample_ref: BankSampleRef,
    now: u128,
)
    requires
        config.wf(),
        old(buttons)@.len() == config@.switches.len(),
    ensures
        final(buttons)@.len() == old(buttons)@.len(),
        forall|i: int|
            0 <= i < old(buttons)@.len() ==> (#[trigger] final(buttons)@[i])@ == (PlayButtonStateView {
                last_played_at: if plays_sample(config@.switches[i], bank_sample_ref) {
                    Some(now)
                } else {
                    old(buttons)@[i].last_played_at
                },
                ..old(buttons)@[i]@
            }),
{
    let switches = config.find_switch_play_for_sample(bank_sample_ref);
    let ghost count = config@.switches.len() as int;
    proof {
        assert(count <= usize::MAX) by {
            assert(config.switches@.len() == config.switches.len());
        }
        assert forall|k: int| 0 <= k < switches@.len() implies (#[trigger] switches@[k]).switch_index
            < count by {
            lemma_switches_playing(config@, bank_sample_ref, count, 0);
        }
    }
    let mut done: usize = 0;
    while done < switches.len()
        invariant
            done <= switches@.len(),
            buttons@.len() == old(buttons)@.len(),
            buttons@.len() == count,
            count <= usize::MAX,
            forall|k: int| 0 <= k < switches@.len() ==> (#[trigger] switches@[k]).switch_index < count,
            forall|i: int|
                0 <= i < count ==> (#[trigger] buttons@[i])@ == (PlayButtonStateView {
                    last_played_at: if switches@.take(done as int).contains(switch_at(i)) {
                        Some(now)
                    } else {
                        old(buttons)@[i].last_played_at
                    },
                    ..old(buttons)@[i]@
                }),
        decreases switches@.len() - done,
    {
        let switch_ref = switches[done];
        buttons[switch_ref.switch_index].last_played_at = Some(now);
        proof {
            let before = switches@.take(done as int);
            let after = switches@.take(done + 1);
            assert(after =~= before.push(switch_ref));
            assert forall|i: int| 0 <= i < count implies (after.contains(#[trigger] switch_at(i))
                <==> before.contains(switch_at(i)) || i == switch_ref.switch_index) by {
                let wanted = switch_at(i);
                if before.contains(wanted) {
                    let k = choose|k: int| 0 <= k < before.len() && before[k] == wanted;
                    assert(after[k] == wanted);
                }
                if i == switch_ref.switch_index {
                    assert(after[done as int] == wanted);
                }
                if after.contains(wanted) && i != switch_ref.switch_index {
                    let k = choose|k: int| 0 <= k < after.len() && after[k] == wanted;
                    assert(after[done as int] == switch_ref);
                    assert(before[k] == wanted);
                }
            }
        }
        done += 1;
    }
    proof {
        assert(switches@.take(switches@.len() as int) =~= switches@);
        assert forall|i: int| 0 <= i < count implies (switches@.contains(#[trigger] switch_at(i))
            <==> plays_sample(config@.switches[i], bank_sample_ref)) by {
            lemma_switches_playing(config@, bank_sample_ref, count, i);
        }
    }
}

/// Takes the press of a keyboard key: the button of the switch that the key
/// triggers holds its key from now on. Returns the switch to press, which is
/// that switch unless its key was held already.
pub fn key_pressed(buttons: &mut Vec<PlayButtonState>, config: &Config, key: KeyCode) -> (pressed:
    Option<SwitchRef>)
    requires
        config.wf(),
        old(buttons)@.len() == config@.switches.len(),
    ensures
        final(buttons)@.len() == old(buttons)@.len(),
        match keyboard_switch(config@.switches, key) {
            Some(found) => {
                &&& 0 <= found < old(buttons)@.len()
                &&& pressed == if old(buttons)@[found].key_held_down {
                    None
                } else {
                    Some(SwitchRef { switch_index: found as usize })
                }
                &&& final(buttons)@[found]@ == (PlayButtonStateView {
                    key_held_down: true,
                    ..old(buttons)@[found]@
                })
                &&& forall|i: int|
                    0 <= i < old(buttons)@.len() && i != found ==> #[trigger] final(buttons)@[i]
                        == old(buttons)@[i]
            },
            None => pressed is None && final(buttons)@ == old(buttons)@,
        },
{
    match config.find_switch_for_keyboard_key(key) {
        Some(switch_config) => {
            let switch_ref = switch_config.switch_ref;
            proof {
                let found = keyboard_switch(config@.switches, key)->0;
                assert(crate::config::switch_refs_valid(
                    config@.banks,
                    config@.switches[found],
                    found,
                ));
            }
            let was_held_down = buttons[switch_ref.switch_index].key_held_down;
            buttons[switch_ref.switch_index].key_held_down = true;
            if !was_held_down {
                Some(switch_ref)
            } else {
                None
            }
        },
        None => None,
    }
}

/// Takes the release of a keyboard key: the button of the switch that the
/// key triggers holds its key no longer.
pub fn key_released(buttons: &mut Vec<PlayButtonState>, config: &Config, key: KeyCode)
    requires
        config.wf(),
        old(buttons)@.len() == config@.switches.len(),
    ensures
        final(buttons)@.len() == old(buttons)@.len(),
        match keyboard_switch(config@.switches, key) {
            Some(found) => {
                &&& 0 <= found < old(buttons)@.len()
                &&& final(buttons)@[found]@ == (PlayButtonStateView {
                    key_held_down: false,
                    ..old(buttons)@[found]@
                })
                &&& forall|i: int|
                    0 <= i < old(buttons)@.len() && i != found ==> #[trigger] final(buttons)@[i]
                        == old(buttons)@[i]
            },
            None => final(buttons)@ == old(buttons)@,
        },
{
    match config.find_switch_for_keyboard_key(key) {
        Some(switch_config) => {
            let switch_ref = switch_config.switch_ref;
            proof {
                let found = keyboard_switch(config@.switches, key)->0;
                assert(crate::config::switch_refs_valid(
                    config@.banks,
                    config@.switches[found],
                    found,
                ));
            }
            buttons[switch_ref.switch_index].key_held_down = false;
        },
        None => {},
    }
}

} // verus!
