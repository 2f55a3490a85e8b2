//! Physical keys and repeatable key inputs.
use vstd::prelude::*;

verus! {

/// One physical key that the replay presses and releases.
#[derive(Clone, Copy, PartialEq, Eq, Debug, Structural)]
pub enum PhysicalKey {
    AKey,
    BKey,
    CKey,
    DKey,
    FKey,
    GKey,
    HKey,
    KKey,
    LKey,
    NKey,
    QKey,
    SKey,
    WKey,
    XKey,
    YKey,
    ZKey,
    Numrow1Key,
    Numrow2Key,
    Numrow3Key,
    Numrow4Key,
    Numrow5Key,
    Numrow6Key,
    Numrow7Key,
    UpKey,
    DownKey,
    LeftKey,
    RightKey,
    EnterKey,
    LShiftKey,
    OtherKey(u64),
}

/// A key input as a value: the keys of one repetition, the signed number of
/// repetitions left and the delay in milliseconds after each key press.
pub struct InputView {
    pub keys: Seq<PhysicalKey>,
    pub presses: int,
    pub delay: int,
}

/// The absolute value of a repetition count.
pub open spec fn magnitude(p: int) -> int {
    if p < 0 {
        -p
    } else {
        p
    }
}

/// A repetition count one step closer to zero.
pub open spec fn toward_zero(p: int) -> int {
    if p > 0 {
        p - 1
    } else if p < 0 {
        p + 1
    } else {
        0
    }
}

/// What is left of an input after one repetition: none once no repetition is left.
pub open spec fn after_press(v: InputView) -> Option<InputView> {
    if v.presses == 0 {
        None
    } else {
        Some(InputView { presses: toward_zero(v.presses), ..v })
    }
}

/// Something that can be replayed as key presses.
pub trait KeyInputtable {
    /// The input in replay form.
    spec fn replay(&self) -> InputView;

    /// The repetition count as this input holds it.
    spec fn presses_spec(&self) -> i8;

    /// The input that remains after one repetition: its count is one step
    /// closer to zero, and none remains when no repetition was left.
    fn pop(&self) -> (r: Option<KeyInput>)
        ensures
            match r {
                Some(k) => after_press(self.replay()) == Some(k@),
                None => after_press(self.replay()) is None,
            },
    ;

    fn get_presses(&self) -> (r: i8)
        ensures
            r == self.presses_spec(),
    ;
}

/// Something that maps to a replayable key input.
pub trait KeyMappable {
    spec fn key_input_spec(&self) -> InputView;

    fn to_key_input(&self) -> (r: KeyInput)
        ensures
            r@ == self.key_input_spec(),
    ;
}

/// Keys to press for each repetition, how many repetitions are left, and how
/// long to wait after each key press.
pub struct KeyInput {
    keys: Vec<PhysicalKey>,
    presses: i8,
    delay: i16,
}

impl View for KeyInput {
    type V = InputView;

    closed spec fn view(&self) -> InputView {
        InputView { keys: self.keys@, presses: self.presses as int, delay: self.delay as int }
    }
}

/// The count and delay of a key input are those of an `i8` and an `i16`.
pub proof fn lemma_key_input_bounds(k: &KeyInput)
    ensures
        i8::MIN <= k@.presses <= i8::MAX,
        i16::MIN <= k@.delay <= i16::MAX,
{
}

/// A copy of a key sequence.
fn copy_keys(keys: &Vec<PhysicalKey>) -> (r: Vec<PhysicalKey>)
    ensures
        r@ == keys@,
{
    let mut out: Vec<PhysicalKey> = Vec::new();
    let mut i: usize = 0;
    while i < keys.len()
        invariant
            i <= keys@.len(),
            out@ == keys@.subrange(0, i as int),
        decreases keys@.len() - i,
    {
        out.push(keys[i]);
        i += 1;
        assert(out@ =~= keys@.subrange(0, i as int));
    }
    assert(out@ =~= keys@);
    out
}

impl KeyInput {
    pub fn new(keys: Vec<PhysicalKey>, presses: i8, delay: i16) -> (r: KeyInput)
        ensures
            r@ == (InputView { keys: keys@, presses: presses as int, delay: delay as int }),
    {
        KeyInput { keys, presses, delay }
    }

    /// The keys pressed, in order, on each repetition.
    pub fn keys(&self) -> (r: &Vec<PhysicalKey>)
        ensures
            r@ == self@.keys,
    {
        &self.keys
    }

    /// Milliseconds to wait after each key press.
    pub fn delay(&self) -> (r: i16)
        ensures
            r as int == self@.delay,
    {
        self.delay
    }
}

impl KeyInputtable for KeyInput {
    open spec fn replay(&self) -> InputView {
        self@
    }

    open spec fn presses_spec(&self) -> i8 {
        self@.presses as i8
    }

    fn pop(&self) -> (r: Option<KeyInput>) {
        if self.presses == 0 {
            None
        } else {
            let next: i8 = if self.presses > 0 {
                self.presses - 1
            } else {
                self.presses + 1
            };
            Some(KeyInput::new(copy_keys(&self.keys), next, self.delay))
        }
    }

    fn get_presses(&self) -> (r: i8) {
        self.presses
    }
}

} // verus!
