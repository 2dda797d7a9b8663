//! The input controller: buttons pick a parameter, the knob's level sets it.

use vstd::prelude::*;

use crate::settings::{Settings, MAX_FRAME_RATE};
use crate::LEVELS;

verus! {

/// The parameter that a knob reading sets.
#[derive(Clone, Copy, Debug, PartialEq, Eq, Structural)]
pub enum Param {
    FrameRate,
    Red,
    Green,
    Blue,
}

/// Which parameter the buttons select (`true` = pressed).
pub open spec fn target_of(btn_a_pressed: bool, btn_b_pressed: bool) -> Param {
    match (btn_a_pressed, btn_b_pressed) {
        (false, false) => Param::FrameRate,
        (true, false) => Param::Blue,
        (false, true) => Param::Green,
        (true, true) => Param::Red,
    }
}

/// The parameter selected by the two buttons (`true` = pressed).
pub fn target(btn_a_pressed: bool, btn_b_pressed: bool) -> (r: Param)
    ensures
        r == target_of(btn_a_pressed, btn_b_pressed),
{
    match (btn_a_pressed, btn_b_pressed) {
        (false, false) => Param::FrameRate,
        (true, false) => Param::Blue,
        (false, true) => Param::Green,
        (true, true) => Param::Red,
    }
}

/// Refresh rate set by a knob level.
pub open spec fn frame_rate_of(level: int) -> int {
    level * 10 + 10
}

/// Decimal digits of `n`, most significant first, with no sign or padding.
pub open spec fn decimal(n: nat) -> Seq<char>
    decreases n,
{
    let digit = seq!['0', '1', '2', '3', '4', '5', '6', '7', '8', '9'][(n % 10) as int];
    if n < 10 {
        seq![digit]
    } else {
        decimal(n / 10).push(digit)
    }
}

/// A status line: the label, a colon and a space, then the value in decimal.
pub open spec fn status_line(label: Seq<char>, value: nat) -> Seq<char> {
    label + seq![':', ' '] + decimal(value)
}

/// Relies on `format!` with `{}`: a `str` is written as it is, and a `u64`
/// in decimal with no sign or padding.
#[verifier::external_body]
fn labeled(label: &str, value: u64) -> (r: String)
    ensures
        r@ == status_line(label@, value as nat),
{
    format!("{}: {}", label, value)
}

/// The controller's own copy of the channel levels and the refresh rate.
#[derive(Clone, Copy, Debug, PartialEq, Eq)]
pub struct UiState {
    pub levels: [u32; 3],
    pub frame_rate: u64,
}

impl UiState {
    /// Levels are in `[0, LEVELS - 1]`, and the refresh rate is the one set
    /// by some level.
    pub open spec fn wf(&self) -> bool {
        &&& forall|i: int| 0 <= i < 3 ==> self.levels[i] < LEVELS
        &&& exists|k: int| 0 <= k < LEVELS && self.frame_rate == frame_rate_of(k)
    }

    /// The value of parameter `p` as a level; the refresh rate is taken back
    /// to the level that set it.
    pub open spec fn value(&self, p: Param) -> int {
        match p {
            Param::FrameRate => (self.frame_rate - 10) / 10,
            Param::Red => self.levels[0] as int,
            Param::Green => self.levels[1] as int,
            Param::Blue => self.levels[2] as int,
        }
    }

    /// The state with parameter `p` set from level `m`.
    pub open spec fn updated(&self, p: Param, m: u32) -> UiState {
        match p {
            Param::FrameRate => UiState {
                levels: self.levels,
                frame_rate: frame_rate_of(m as int) as u64,
            },
            Param::Red => UiState {
                levels: [m, self.levels[1], self.levels[2]],
                frame_rate: self.frame_rate,
            },
            Param::Green => UiState {
                levels: [self.levels[0], m, self.levels[2]],
                frame_rate: self.frame_rate,
            },
            Param::Blue => UiState {
                levels: [self.levels[0], self.levels[1], m],
                frame_rate: self.frame_rate,
            },
        }
    }

    /// Whether setting `p` from level `m` changes it.
    pub open spec fn changes(&self, p: Param, m: u32) -> bool {
        self.value(p) != m as int
    }

    /// One status line per channel (red, green, blue), then one for the
    /// refresh rate.
    pub fn show(&self) -> (r: Vec<String>)
        ensures
            r@.len() == 4,
            r@[0]@ == status_line("red"@, self.levels[0] as nat),
            r@[1]@ == status_line("green"@, self.levels[1] as nat),
            r@[2]@ == status_line("blue"@, self.levels[2] as nat),
            r@[3]@ == status_line("frame rate"@, self.frame_rate as nat),
    {
        let mut r: Vec<String> = Vec::new();
        r.push(labeled("red", self.levels[0] as u64));
        r.push(labeled("green", self.levels[1] as u64));
        r.push(labeled("blue", self.levels[2] as u64));
        r.push(labeled("frame rate", self.frame_rate));
        r
    }

    /// The snapshot to publish.
    pub fn settings(&self) -> (r: Settings)
        requires
            self.wf(),
        ensures
            r.wf(),
            r.levels == self.levels,
            r.frame_rate == self.frame_rate,
    {
        proof {
            let k = choose|k: int| 0 <= k < LEVELS && self.frame_rate == frame_rate_of(k);
            assert(self.frame_rate <= MAX_FRAME_RATE);
        }
        Settings { levels: self.levels, frame_rate: self.frame_rate }
    }
}

impl Default for UiState {
    /// All channels at the top level, refresh rate 100.
    fn default() -> (r: Self)
        ensures
            r.wf(),
            forall|i: int| 0 <= i < 3 ==> r.levels[i] == LEVELS - 1,
            r.frame_rate == 100,
    {
        let r = UiState { levels: [LEVELS - 1, LEVELS - 1, LEVELS - 1], frame_rate: 100 };
        assert(r.frame_rate == frame_rate_of(9));
        r
    }
}

/// The buttons select the refresh rate when neither is pressed, blue for A
/// alone, green for B alone and red for both; setting the selected parameter
/// gives it the new level and leaves the other three as they were.
pub proof fn lemma_button_mapping(s: UiState, btn_a_pressed: bool, btn_b_pressed: bool, m: u32)
    requires
        s.wf(),
        m < LEVELS,
    ensures
        target_of(false, false) == Param::FrameRate,
        target_of(true, false) == Param::Blue,
        target_of(false, true) == Param::Green,
        target_of(true, true) == Param::Red,
        s.updated(target_of(btn_a_pressed, btn_b_pressed), m).value(
            target_of(btn_a_pressed, btn_b_pressed),
        ) == m,
        forall|q: Param|
            q != target_of(btn_a_pressed, btn_b_pressed) ==> #[trigger] s.updated(
                target_of(btn_a_pressed, btn_b_pressed),
                m,
            ).value(q) == s.value(q),
{
    assert((frame_rate_of(m as int) - 10) / 10 == m);
}

/// Two readings in a row with the same buttons: the second reports a change
/// exactly when its level differs from the first, so a repeated level is
/// neither logged nor published.
pub proof fn lemma_change_detection(
    s: UiState,
    btn_a_pressed: bool,
    btn_b_pressed: bool,
    m1: u32,
    m2: u32,
)
    requires
        s.wf(),
        m1 < LEVELS,
        m2 < LEVELS,
    ensures
        s.updated(target_of(btn_a_pressed, btn_b_pressed), m1).changes(
            target_of(btn_a_pressed, btn_b_pressed),
            m2,
        ) == (m1 != m2),
{
    assert((frame_rate_of(m1 as int) - 10) / 10 == m1);
}

/// The least level with no button pressed sets the refresh rate to ten,
/// never to zero.
pub proof fn lemma_frame_rate_floor(s: UiState)
    ensures
        s.updated(target_of(false, false), 0).frame_rate == 10,
{
}

/// Relies on `num_traits::ToPrimitive::to_u32` for `u64`: the value itself
/// when it fits in a `u32`, `None` otherwise.
#[verifier::external_body]
fn to_u32(x: u64) -> (r: Option<u32>)
    ensures
        x <= u32::MAX ==> r == Some(x as u32),
        x > u32::MAX ==> r is None,
{
    num_traits::ToPrimitive::to_u32(&x)
}

/// Relies on `num_traits::ToPrimitive::to_u64` for `u32`: always the value
/// itself.
#[verifier::external_body]
fn to_u64(x: u32) -> (r: Option<u64>)
    ensures
        r == Some(x as u64),
{
    num_traits::ToPrimitive::to_u64(&x)
}

/// The input controller: the knob `K`, two buttons `B`, and the state that
/// readings of them set.
pub struct Ui<K, B> {
    pub knob: K,
    pub button_a: B,
    pub button_b: B,
    pub state: UiState,
}

impl<K, B> Ui<K, B> {
    /// A controller on `knob` and the two buttons, in the default state.
    pub fn new(knob: K, button_a: B, button_b: B) -> (r: Self)
        ensures
            r.knob == knob,
            r.button_a == button_a,
            r.button_b == button_b,
            r.state.wf(),
            forall|i: int| 0 <= i < 3 ==> r.state.levels[i] == LEVELS - 1,
            r.state.frame_rate == 100,
    {
        Ui { knob, button_a, button_b, state: UiState::default() }
    }

    /// Sets the parameter that the buttons select (`true` = pressed) from the
    /// knob level `measurement`. Returns whether its value changed, compared
    /// as levels.
    pub fn update(&mut self, btn_a_pressed: bool, btn_b_pressed: bool, measurement: u32) -> (r:
        bool)
        requires
            old(self).state.wf(),
            measurement < LEVELS,
        ensures
            final(self).state.wf(),
            final(self).state == old(self).state.updated(
                target_of(btn_a_pressed, btn_b_pressed),
                measurement,
            ),
            r == old(self).state.changes(target_of(btn_a_pressed, btn_b_pressed), measurement),
            final(self).knob == old(self).knob,
            final(self).button_a == old(self).button_a,
            final(self).button_b == old(self).button_b,
    {
        let ghost k = choose|k: int| 0 <= k < LEVELS && self.state.frame_rate == frame_rate_of(k);
        let previous_level = match target(btn_a_pressed, btn_b_pressed) {
            Param::FrameRate => {
                assert((self.state.frame_rate - 10) / 10 == k);
                let prev = to_u32((self.state.frame_rate - 10) / 10).unwrap();
                self.state.frame_rate = to_u64(measurement).unwrap() * 10 + 10;
                assert(self.state.frame_rate == frame_rate_of(measurement as int));
                prev
            },
            Param::Blue => {
                let prev = self.state.levels[2];
                self.state.levels = [self.state.levels[0], self.state.levels[1], measurement];
                prev
            },
            Param::Green => {
                let prev = self.state.levels[1];
                self.state.levels = [self.state.levels[0], measurement, self.state.levels[2]];
                prev
            },
            Param::Red => {
                let prev = self.state.levels[0];
                self.state.levels = [measurement, self.state.levels[1], self.state.levels[2]];
                prev
            },
        };
        previous_level != measurement
    }
}

} // verus!
