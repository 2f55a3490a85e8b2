//! The replay engine: message parsing and focus checking capabilities, the
//! queue of pending inputs and the tick that advances it.
use vstd::prelude::*;
use crate::model::key::{lemma_key_input_bounds, magnitude, toward_zero, InputView, KeyInput, KeyInputtable};

verus! {

/// Turns the text of a chat command into a key input.
pub trait MessageParser {
    /// The input that a command denotes, or none where it is not a valid command.
    spec fn parse_spec(&self, content: Seq<char>) -> Option<InputView>;

    fn parse_msg(&self, content: &str) -> (r: Result<KeyInput, ()>)
        ensures
            match r {
                Ok(k) => self.parse_spec(content@) == Some(k@),
                Err(_) => self.parse_spec(content@) is None,
            },
    ;
}

/// Tells from the title of the foreground window whether the game has focus.
pub trait GameFocusChecker {
    spec fn title_matches(&self, title: Seq<char>) -> bool;

    /// `title` is the foreground window's title, none where it could not be read.
    fn game_focused(&self, title: Option<&str>) -> (r: bool)
        ensures
            r == match title {
                Some(t) => self.title_matches(t@),
                None => false,
            },
    ;
}

/// Largest repetition count that the replay carries out; an input whose count
/// is larger in absolute value is dropped without a key press.
pub const MAX_REPEATS: i8 = 20;

/// The queue after one tick. Without focus nothing changes. With focus the
/// front input is taken off; it goes back to the front, one step closer to
/// zero, where that leaves a repetition to do and its count was within the
/// ceiling.
pub open spec fn tick_queue(q: Seq<InputView>, focused: bool) -> Seq<InputView> {
    if !focused || q.len() == 0 {
        q
    } else if magnitude(q[0].presses) > MAX_REPEATS || magnitude(q[0].presses) <= 1 {
        q.drop_first()
    } else {
        seq![InputView { presses: toward_zero(q[0].presses), ..q[0] }] + q.drop_first()
    }
}

/// The input whose keys one tick presses: the front input, with focus, where
/// its count is nonzero and within the ceiling.
pub open spec fn tick_play(q: Seq<InputView>, focused: bool) -> Option<InputView> {
    if focused && q.len() > 0 && 1 <= magnitude(q[0].presses) <= MAX_REPEATS {
        Some(q[0])
    } else {
        None
    }
}

/// The queue after `n` ticks with the same focus.
pub open spec fn ticks(q: Seq<InputView>, n: nat, focused: bool) -> Seq<InputView>
    decreases n,
{
    if n == 0 {
        q
    } else {
        ticks(tick_queue(q, focused), (n - 1) as nat, focused)
    }
}

/// How many of `n` ticks with the same focus press keys.
pub open spec fn presses_made(q: Seq<InputView>, n: nat, focused: bool) -> nat
    decreases n,
{
    if n == 0 {
        0
    } else {
        (if tick_play(q, focused) is Some {
            1nat
        } else {
            0nat
        }) + presses_made(tick_queue(q, focused), (n - 1) as nat, focused)
    }
}

/// The pending inputs, front first. New inputs go to the front, and each tick
/// works on the front input.
pub struct InputStack {
    inputs: Vec<KeyInput>,
}

impl View for InputStack {
    type V = Seq<InputView>;

    closed spec fn view(&self) -> Seq<InputView> {
        self.inputs@.map_values(|k: KeyInput| k@)
    }
}

impl InputStack {
    pub fn new() -> (r: InputStack)
        ensures
            r@ == Seq::<InputView>::empty(),
    {
        let r = InputStack { inputs: Vec::new() };
        assert(r@ =~= Seq::<InputView>::empty());
        r
    }

    pub fn len(&self) -> (r: usize)
        ensures
            r == self@.len(),
    {
        self.inputs.len()
    }

    /// The input at position `i`, counted from the front.
    pub fn get(&self, i: usize) -> (r: &KeyInput)
        requires
            i < self@.len(),
        ensures
            r@ == self@[i as int],
    {
        &self.inputs[i]
    }

    pub fn push_front(&mut self, input: KeyInput)
        ensures
            final(self)@ == seq![input@] + old(self)@,
    {
        self.inputs.insert(0, input);
        assert(self@ =~= seq![input@] + old(self)@);
    }

    /// Removes and returns the front input; none when the queue is empty.
    pub fn take_front(&mut self) -> (r: Option<KeyInput>)
        ensures
            old(self)@.len() == 0 ==> r is None && final(self)@ == old(self)@,
            old(self)@.len() > 0 ==> r is Some && r->0@ == old(self)@[0] && final(self)@
                == old(self)@.drop_first(),
    {
        if self.inputs.len() == 0 {
            None
        } else {
            let first = self.inputs.remove(0);
            assert(self@ =~= old(self)@.drop_first());
            Some(first)
        }
    }

    /// One tick of the replay. Returns the input whose keys are to be pressed
    /// and released once now, if any, and leaves the queue as `tick_queue` says.
    pub fn pop_input(&mut self, focused: bool) -> (r: Option<KeyInput>)
        ensures
            final(self)@ == tick_queue(old(self)@, focused),
            match r {
                Some(k) => tick_play(old(self)@, focused) == Some(k@),
                None => tick_play(old(self)@, focused) is None,
            },
    {
        if !focused {
            return None;
        }
        let input = match self.take_front() {
            None => return None,
            Some(input) => input,
        };
        let p = input.get_presses();
        proof {
            lemma_key_input_bounds(&input);
        }
        if p > MAX_REPEATS || p < -MAX_REPEATS {
            return None;
        }
        match input.pop() {
            None => None,
            Some(next) => {
                proof {
                    lemma_key_input_bounds(&next);
                }
                if next.get_presses() != 0 {
                    self.push_front(next);
                }
                Some(input)
            },
        }
    }
}

/// Parses a command and, where it is valid, puts its input at the front of
/// the queue; an invalid command leaves the queue as it was.
pub fn push_input<P: MessageParser>(msg_parser: &P, stack: &mut InputStack, content: &str)
    ensures
        final(stack)@ == match msg_parser.parse_spec(content@) {
            Some(v) => seq![v] + old(stack)@,
            None => old(stack)@,
        },
{
    match msg_parser.parse_msg(content) {
        Err(_) => {},
        Ok(input) => stack.push_front(input),
    }
}

/// The command in a chat message: what follows the prefix, where the message
/// starts with the prefix character and has more after it.
pub fn command_text<'a>(prefix: &str, content: &'a str) -> (r: Option<&'a str>)
    ensures
        match r {
            Some(t) => content@.len() > 1 && prefix@ == seq![content@[0]] && t@
                == content@.drop_first(),
            None => !(content@.len() > 1 && prefix@ == seq![content@[0]]),
        },
{
    let n = content.unicode_len();
    if n <= 1 {
        return None;
    }
    let first = content.get_char(0);
    if prefix.unicode_len() != 1 || prefix.get_char(0) != first {
        assert(prefix@.len() != 1 || prefix@[0] != content@[0]);
        return None;
    }
    assert(prefix@ =~= seq![content@[0]]);
    let rest = content.substring_char(1, n);
    assert(rest@ =~= content@.drop_first());
    Some(rest)
}

/// Ticks without focus leave the queue as it is and press no key.
pub proof fn lemma_unfocused_ticks_keep_queue(q: Seq<InputView>, n: nat)
    ensures
        ticks(q, n, false) == q,
        presses_made(q, n, false) == 0,
    decreases n,
{
    if n > 0 {
        lemma_unfocused_ticks_keep_queue(q, (n - 1) as nat);
    }
}

/// With focus, after `k` ticks short of the front input's count, that input
/// is still at the front with the same keys and delay, its count `k` steps
/// closer to zero, and the rest of the queue is as it was.
pub proof fn lemma_focused_ticks_step_front(q: Seq<InputView>, k: nat)
    requires
        q.len() > 0,
        magnitude(q[0].presses) <= MAX_REPEATS,
        k < magnitude(q[0].presses),
    ensures
        ticks(q, k, true).len() == q.len(),
        ticks(q, k, true)[0].keys == q[0].keys,
        ticks(q, k, true)[0].delay == q[0].delay,
        magnitude(ticks(q, k, true)[0].presses) == magnitude(q[0].presses) - k,
        ticks(q, k, true)[0].presses < 0 <==> q[0].presses < 0,
        ticks(q, k, true).drop_first() == q.drop_first(),
    decreases k,
{
    if k > 0 {
        let q2 = tick_queue(q, true);
        assert(q2.drop_first() =~= q.drop_first());
        lemma_focused_ticks_step_front(q2, (k - 1) as nat);
    }
}

/// With focus, a front input whose count `r` is nonzero and within the
/// ceiling is replayed on each of the next `r` ticks, one step closer to zero
/// each time, and is gone after them, leaving the rest of the queue.
pub proof fn lemma_focused_ticks_drain_front(q: Seq<InputView>)
    requires
        q.len() > 0,
        1 <= magnitude(q[0].presses) <= MAX_REPEATS,
    ensures
        ticks(q, magnitude(q[0].presses) as nat, true) == q.drop_first(),
        presses_made(q, magnitude(q[0].presses) as nat, true) == magnitude(q[0].presses),
        forall|k: nat|
            k < magnitude(q[0].presses) ==> {
                let s = #[trigger] ticks(q, k, true);
                &&& tick_play(s, true) == Some(s[0])
                &&& s[0].keys == q[0].keys
                &&& magnitude(s[0].presses) == magnitude(q[0].presses) - k
            },
    decreases magnitude(q[0].presses),
{
    let r = magnitude(q[0].presses);
    assert forall|k: nat| k < r implies {
        let s = #[trigger] ticks(q, k, true);
        &&& tick_play(s, true) == Some(s[0])
        &&& s[0].keys == q[0].keys
        &&& magnitude(s[0].presses) == r - k
    } by {
        lemma_focused_ticks_step_front(q, k);
    }
    let q2 = tick_queue(q, true);
    assert(tick_play(q, true) is Some);
    assert(presses_made(q, r as nat, true) == 1 + presses_made(q2, (r - 1) as nat, true));
    if r == 1 {
        assert(ticks(q2, 0, true) == q2);
        assert(presses_made(q2, 0, true) == 0);
    } else {
        assert(q2.drop_first() =~= q.drop_first());
        lemma_focused_ticks_drain_front(q2);
    }
}

/// With focus, an input whose count exceeds the ceiling is taken off the
/// queue on the tick that reaches it, without a key press and without going
/// back.
pub proof fn lemma_over_ceiling_dropped(q: Seq<InputView>)
    requires
        q.len() > 0,
        magnitude(q[0].presses) > MAX_REPEATS,
    ensures
        tick_queue(q, true) == q.drop_first(),
        tick_play(q, true) is None,
{
}

} // verus!
