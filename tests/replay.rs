use chat_plays::game::ftl::FTLUtils;
use chat_plays::game::nds::NDSUtils;
use chat_plays::model::bot::{command_text, push_input, InputStack, MessageParser};
use chat_plays::model::key::{KeyInput, KeyInputtable, PhysicalKey};

fn stack_with(parser: &impl MessageParser, commands: &[&str]) -> InputStack {
    let mut stack = InputStack::new();
    for c in commands {
        push_input(parser, &mut stack, c);
    }
    stack
}

#[test]
fn shields_three_presses_three_times_then_leaves() {
    let mut stack = stack_with(&FTLUtils, &["shields 3"]);
    assert_eq!(stack.len(), 1);
    for left in [2i8, 1, 0] {
        let played = stack.pop_input(true).expect("a repetition");
        assert_eq!(played.keys(), &vec![PhysicalKey::AKey]);
        assert_eq!(played.delay(), 25);
        assert_eq!(stack.len(), if left == 0 { 0 } else { 1 });
        if left > 0 {
            assert_eq!(stack.get(0).get_presses(), left);
        }
    }
    assert!(stack.pop_input(true).is_none());
    assert_eq!(stack.len(), 0);
}

#[test]
fn shields_nine_leaves_queue_unchanged() {
    let mut stack = stack_with(&FTLUtils, &["engines 2"]);
    push_input(&FTLUtils, &mut stack, "shields 9");
    assert_eq!(stack.len(), 1);
    assert_eq!(stack.get(0).get_presses(), 2);
    push_input(&FTLUtils, &mut stack, "doors");
    push_input(&FTLUtils, &mut stack, "warp 3");
    assert_eq!(stack.len(), 1);
}

#[test]
fn new_inputs_go_to_the_front() {
    let stack = stack_with(&FTLUtils, &["shields 2", "engines 5"]);
    assert_eq!(stack.len(), 2);
    assert_eq!(stack.get(0).keys(), &vec![PhysicalKey::SKey]);
    assert_eq!(stack.get(1).keys(), &vec![PhysicalKey::AKey]);
}

#[test]
fn unfocused_ticks_keep_queue() {
    let mut stack = stack_with(&FTLUtils, &["shields 2", "engines 5"]);
    for _ in 0..10 {
        assert!(stack.pop_input(false).is_none());
    }
    assert_eq!(stack.len(), 2);
    assert_eq!(stack.get(0).get_presses(), 5);
    assert_eq!(stack.get(0).keys(), &vec![PhysicalKey::SKey]);
    assert_eq!(stack.get(1).get_presses(), 2);
}

#[test]
fn focused_ticks_drain_front_then_move_on() {
    let mut stack = stack_with(&FTLUtils, &["shields 2", "engines 4"]);
    for _ in 0..4 {
        let played = stack.pop_input(true).expect("a repetition");
        assert_eq!(played.keys(), &vec![PhysicalKey::SKey]);
    }
    assert_eq!(stack.len(), 1);
    let played = stack.pop_input(true).expect("a repetition");
    assert_eq!(played.keys(), &vec![PhysicalKey::AKey]);
}

#[test]
fn focus_lost_midway_pauses_the_drain() {
    let mut stack = stack_with(&FTLUtils, &["shields 3"]);
    assert!(stack.pop_input(true).is_some());
    assert!(stack.pop_input(false).is_none());
    assert_eq!(stack.get(0).get_presses(), 2);
    assert!(stack.pop_input(true).is_some());
    assert!(stack.pop_input(true).is_some());
    assert_eq!(stack.len(), 0);
}

#[test]
fn count_over_ceiling_is_dropped_without_press() {
    let mut stack = stack_with(&NDSUtils, &["a 50"]);
    assert_eq!(stack.len(), 1);
    assert!(stack.pop_input(true).is_none());
    assert_eq!(stack.len(), 0);

    let mut stack = InputStack::new();
    stack.push_front(KeyInput::new(vec![PhysicalKey::ZKey], -21, 100));
    assert!(stack.pop_input(true).is_none());
    assert_eq!(stack.len(), 0);
}

#[test]
fn count_at_ceiling_is_replayed() {
    let mut stack = InputStack::new();
    stack.push_front(KeyInput::new(vec![PhysicalKey::ZKey], 20, 100));
    let mut played = 0;
    while stack.pop_input(true).is_some() {
        played += 1;
    }
    assert_eq!(played, 20);
    assert_eq!(stack.len(), 0);
}

#[test]
fn negative_count_moves_toward_zero() {
    let mut stack = stack_with(&NDSUtils, &["a -2"]);
    assert_eq!(stack.get(0).get_presses(), -2);
    assert!(stack.pop_input(true).is_some());
    assert_eq!(stack.get(0).get_presses(), -1);
    assert!(stack.pop_input(true).is_some());
    assert_eq!(stack.len(), 0);
}

#[test]
fn zero_count_is_dropped_without_press() {
    let mut stack = stack_with(&NDSUtils, &["b 0"]);
    assert_eq!(stack.len(), 1);
    assert!(stack.pop_input(true).is_none());
    assert_eq!(stack.len(), 0);
}

#[test]
fn empty_queue_tick_does_nothing() {
    let mut stack = InputStack::new();
    assert!(stack.pop_input(true).is_none());
    assert!(stack.take_front().is_none());
    assert_eq!(stack.len(), 0);
}

#[test]
fn key_input_pop_steps_toward_zero() {
    let k = KeyInput::new(vec![PhysicalKey::AKey, PhysicalKey::BKey], -3, 25);
    let next = k.pop().expect("one left");
    assert_eq!(next.get_presses(), -2);
    assert_eq!(next.keys(), &vec![PhysicalKey::AKey, PhysicalKey::BKey]);
    assert_eq!(next.delay(), 25);
    let up = KeyInput::new(vec![PhysicalKey::AKey], 1, 25).pop().expect("zero left");
    assert_eq!(up.get_presses(), 0);
    assert!(up.pop().is_none());
}

#[test]
fn command_text_strips_prefix() {
    assert_eq!(command_text(";", ";shields 3"), Some("shields 3"));
    assert_eq!(command_text(";", ";"), None);
    assert_eq!(command_text(";", ""), None);
    assert_eq!(command_text("!", ";shields 3"), None);
    assert_eq!(command_text(";;", ";shields"), None);
    assert_eq!(command_text("é", "éa"), Some("a"));
}
