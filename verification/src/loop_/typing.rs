//! Chat messages, typed one key at a time.

use std::collections::VecDeque;
use vstd::prelude::*;
use vstd::std_specs::vecdeque::*;
use crate::keycode::KeyMap;
use crate::text::chars_of;

verus! {

/// The HID code of Enter, which opens the chat and sends a message.
pub const HID_ENTER: u8 = 0x28;

/// Least number of ticks between two keys of a message.
pub const TYPING_MIN_TICKS: u64 = 3;

/// Greatest number of ticks between two keys of a message.
pub const TYPING_MAX_TICKS: u64 = 8;

/// The keys that type the characters of a text; a character that cannot be
/// typed is left out.
pub open spec fn typed(text: Seq<char>, keys: KeyMap) -> Seq<u8>
    decreases text.len(),
{
    if text.len() == 0 {
        Seq::empty()
    } else {
        let before = typed(text.drop_last(), keys);
        match keys.code_of_char(text.last()) {
            Some(code) => before.push(code),
            None => before,
        }
    }
}

/// The keys of a message: Enter, its characters, Enter.
pub open spec fn keystrokes(text: Seq<char>, keys: KeyMap) -> Seq<u8> {
    seq![HID_ENTER] + typed(text, keys) + seq![HID_ENTER]
}

/// The keys of several messages, one after the other.
pub open spec fn all_keystrokes(texts: Seq<String>, keys: KeyMap) -> Seq<u8>
    decreases texts.len(),
{
    if texts.len() == 0 {
        Seq::empty()
    } else {
        all_keystrokes(texts.drop_last(), keys) + keystrokes(texts.last()@, keys)
    }
}

/// Keys that wait to be typed.
pub struct TypingBuffer {
    pub queue: VecDeque<u8>,
    /// The tick from which the next key may be typed.
    pub next_tick: u64,
}

impl TypingBuffer {
    /// A key may be typed on this tick, unless the bot is paused.
    pub open spec fn due(self, tick: u64) -> bool {
        self.queue@.len() > 0 && tick >= self.next_tick
    }

    /// Nothing waits.
    pub fn new() -> (r: Self)
        ensures
            r.queue@ == Seq::<u8>::empty(),
            r.next_tick == 0,
    {
        TypingBuffer { queue: VecDeque::new(), next_tick: 0 }
    }

    /// Puts a message behind what already waits.
    pub fn enqueue(&mut self, text: &str, keys: &KeyMap)
        ensures
            final(self).queue@ == old(self).queue@ + keystrokes(text@, *keys),
            final(self).next_tick == old(self).next_tick,
    {
        let chars = chars_of(text);
        self.queue.push_back(HID_ENTER);
        let ghost head = self.queue@;
        let mut i: usize = 0;
        assert(chars@.take(0) =~= Seq::empty());
        assert(head + typed(chars@.take(0), *keys) =~= head);
        while i < chars.len()
            invariant
                i <= chars.len(),
                self.queue@ == head + typed(chars@.take(i as int), *keys),
                self.next_tick == old(self).next_tick,
            decreases chars.len() - i,
        {
            let ghost next = chars@.take(i + 1);
            assert(next.drop_last() =~= chars@.take(i as int));
            assert(next.last() == chars@[i as int]);
            match keys.ascii_to_hid(chars[i]) {
                Some(hid) => {
                    self.queue.push_back(hid);
                },
                None => {},
            }
            i += 1;
            assert(self.queue@ =~= head + typed(chars@.take(i as int), *keys));
        }
        assert(chars@.take(i as int) =~= text@);
        self.queue.push_back(HID_ENTER);
        assert(self.queue@ =~= old(self).queue@ + keystrokes(text@, *keys));
    }

    /// Puts messages, in order, behind what already waits.
    pub fn enqueue_all(&mut self, texts: &Vec<String>, keys: &KeyMap)
        ensures
            final(self).queue@ == old(self).queue@ + all_keystrokes(texts@, *keys),
            final(self).next_tick == old(self).next_tick,
    {
        let mut i: usize = 0;
        assert(texts@.take(0) =~= Seq::empty());
        assert(self.queue@ + all_keystrokes(texts@.take(0), *keys) =~= self.queue@);
        while i < texts.len()
            invariant
                i <= texts.len(),
                self.queue@ == old(self).queue@ + all_keystrokes(texts@.take(i as int), *keys),
                self.next_tick == old(self).next_tick,
            decreases texts.len() - i,
        {
            let ghost next = texts@.take(i + 1);
            assert(next.drop_last() =~= texts@.take(i as int));
            assert(next.last() == texts@[i as int]);
            self.enqueue(texts[i].as_str(), keys);
            i += 1;
            assert(self.queue@ =~= old(self).queue@ + all_keystrokes(
                texts@.take(i as int),
                *keys,
            ));
        }
        assert(texts@.take(i as int) =~= texts@);
    }

    /// Takes the next key; the one after it waits for `spacing` ticks.
    pub fn take(&mut self, tick: u64, spacing: u64) -> (hid: u8)
        requires
            old(self).queue@.len() > 0,
            tick + spacing <= u64::MAX,
        ensures
            hid == old(self).queue@[0],
            final(self).queue@ == old(self).queue@.drop_first(),
            final(self).next_tick == tick + spacing,
    {
        let first: u8 = self.queue[0];
        let _ = self.queue.pop_front();
        self.next_tick = tick + spacing;
        assert(self.queue@ =~= old(self).queue@.drop_first());
        first
    }
}

/// A message that can be typed in full is typed character by character between
/// two presses of Enter, and messages come out in the order they came in.
pub proof fn messages_are_framed(text: Seq<char>, keys: KeyMap)
    ensures
        keystrokes(text, keys).len() >= 2,
        keystrokes(text, keys)[0] == HID_ENTER,
        keystrokes(text, keys).last() == HID_ENTER,
        (forall|i: int| 0 <= i < text.len() ==> keys.code_of_char(#[trigger] text[i]) is Some)
            ==> typed(text, keys).len() == text.len() && forall|i: int|
            0 <= i < text.len() ==> keys.code_of_char(text[i]) == Some(
                #[trigger] typed(text, keys)[i],
            ),
    decreases text.len(),
{
    if (forall|i: int| 0 <= i < text.len() ==> keys.code_of_char(#[trigger] text[i]) is Some)
        && text.len() > 0 {
        let before = text.drop_last();
        assert forall|i: int| 0 <= i < before.len() implies keys.code_of_char(
            #[trigger] before[i],
        ) is Some by {
            assert(before[i] == text[i]);
        }
        messages_are_framed(before, keys);
        assert(keys.code_of_char(text[text.len() - 1]) is Some);
        assert forall|i: int| 0 <= i < text.len() implies keys.code_of_char(text[i]) == Some(
            #[trigger] typed(text, keys)[i],
        ) by {
            if i < before.len() {
                assert(before[i] == text[i]);
                assert(typed(text, keys)[i] == typed(before, keys)[i]);
            }
        }
    }
}

/// What is typed of a text and another behind it is what is typed of each, in order. A character is
/// typed by its own key, and left out where it has none.
pub proof fn a_text_is_typed_in_order(a: Seq<char>, b: Seq<char>, c: char, keys: KeyMap)
    ensures
        typed(a + b, keys) == typed(a, keys) + typed(b, keys),
        keys.code_of_char(c) matches Some(code) ==> typed(seq![c], keys) == seq![code],
        keys.code_of_char(c) is None ==> typed(seq![c], keys) == Seq::<u8>::empty(),
    decreases b.len(),
{
    reveal_with_fuel(typed, 2);
    assert(seq![c].drop_last() =~= Seq::<char>::empty());
    assert(seq![c].last() == c);
    if let Some(code) = keys.code_of_char(c) {
        assert(typed(seq![c], keys) =~= seq![code]);
    }
    if b.len() == 0 {
        assert(a + b =~= a);
        assert(typed(a, keys) + typed(b, keys) =~= typed(a, keys));
    } else {
        a_text_is_typed_in_order(a, b.drop_last(), c, keys);
        assert((a + b).drop_last() =~= a + b.drop_last());
        assert((a + b).last() == b.last());
        assert(typed(a + b, keys) =~= typed(a, keys) + typed(b, keys));
    }
}

/// A message is typed between two presses of Enter, whose code is 0x28, with nothing else before,
/// between or behind; messages are typed one after the other.
pub proof fn messages_are_typed_in_order(a: Seq<String>, b: Seq<String>, text: String, keys: KeyMap)
    ensures
        keystrokes(text@, keys).len() == typed(text@, keys).len() + 2,
        keystrokes(text@, keys)[0] == 0x28,
        keystrokes(text@, keys).last() == 0x28,
        keystrokes(text@, keys).skip(1).drop_last() == typed(text@, keys),
        all_keystrokes(seq![text], keys) == keystrokes(text@, keys),
        all_keystrokes(a + b, keys) == all_keystrokes(a, keys) + all_keystrokes(b, keys),
    decreases b.len(),
{
    reveal_with_fuel(all_keystrokes, 2);
    assert(seq![text].drop_last() =~= Seq::<String>::empty());
    assert(seq![text].last() == text);
    assert(all_keystrokes(seq![text], keys) =~= keystrokes(text@, keys));
    assert(keystrokes(text@, keys).skip(1).drop_last() =~= typed(
        text@,
        keys,
    ));
    if b.len() == 0 {
        assert(a + b =~= a);
        assert(all_keystrokes(a, keys) + all_keystrokes(b, keys) =~= all_keystrokes(a, keys));
    } else {
        messages_are_typed_in_order(a, b.drop_last(), text, keys);
        assert((a + b).drop_last() =~= a + b.drop_last());
        assert((a + b).last() == b.last());
        assert(all_keystrokes(a + b, keys) =~= all_keystrokes(a, keys) + all_keystrokes(b, keys));
    }
}

} // verus!
