//! Keyboard tables: key names and typeable characters with their HID codes.

use vstd::prelude::*;
use crate::text::same;

verus! {

/// A key name with its HID usage code.
#[derive(Clone, Debug)]
pub struct KeyName {
    pub name: String,
    pub code: u8,
}

/// The key names and typeable characters that a keyboard knows.
///
/// Where a name or a character is listed twice, the first entry counts.
#[derive(Clone, Debug)]
pub struct KeyMap {
    pub names: Vec<KeyName>,
    pub chars: Vec<(char, u8)>,
}

/// The code of `name` in a list of key names: that of the first entry so named.
pub open spec fn lookup_name(names: Seq<KeyName>, name: Seq<char>) -> Option<u8>
    decreases names.len(),
{
    if names.len() == 0 {
        None
    } else if names[0].name@ == name {
        Some(names[0].code)
    } else {
        lookup_name(names.drop_first(), name)
    }
}

/// The code of `c` in a list of typeable characters: that of the first entry.
pub open spec fn lookup_char(chars: Seq<(char, u8)>, c: char) -> Option<u8>
    decreases chars.len(),
{
    if chars.len() == 0 {
        None
    } else if chars[0].0 == c {
        Some(chars[0].1)
    } else {
        lookup_char(chars.drop_first(), c)
    }
}

impl KeyMap {
    /// The HID code that `name` stands for, if any.
    pub open spec fn code_of(self, name: Seq<char>) -> Option<u8> {
        lookup_name(self.names@, name)
    }

    /// The HID code that types `c`, if any.
    pub open spec fn code_of_char(self, c: char) -> Option<u8> {
        lookup_char(self.chars@, c)
    }

    /// The HID code of a key name; `None` where the name is unknown.
    pub fn parse(&self, name: &str) -> (r: Option<u8>)
        ensures
            r == self.code_of(name@),
    {
        let mut i: usize = 0;
        assert(self.names@.skip(0) =~= self.names@);
        while i < self.names.len()
            invariant
                i <= self.names.len(),
                self.code_of(name@) == lookup_name(self.names@.skip(i as int), name@),
            decreases self.names.len() - i,
        {
            let ghost rest = self.names@.skip(i as int);
            assert(rest[0] == self.names@[i as int]);
            if same(self.names[i].name.as_str(), name) {
                return Some(self.names[i].code);
            }
            i += 1;
            assert(rest.drop_first() =~= self.names@.skip(i as int));
        }
        None
    }

    /// The HID code that types a character; `None` where it cannot be typed.
    pub fn ascii_to_hid(&self, c: char) -> (r: Option<u8>)
        ensures
            r == self.code_of_char(c),
    {
        let mut i: usize = 0;
        assert(self.chars@.skip(0) =~= self.chars@);
        while i < self.chars.len()
            invariant
                i <= self.chars.len(),
                self.code_of_char(c) == lookup_char(self.chars@.skip(i as int), c),
            decreases self.chars.len() - i,
        {
            let ghost rest = self.chars@.skip(i as int);
            assert(rest[0] == self.chars@[i as int]);
            if self.chars[i].0 == c {
                return Some(self.chars[i].1);
            }
            i += 1;
            assert(rest.drop_first() =~= self.chars@.skip(i as int));
        }
        None
    }
}

/// A name has the code of the first entry that bears it, and none where no entry does.
pub proof fn a_name_is_looked_up_in_order(names: Seq<KeyName>, name: Seq<char>, i: int)
    requires
        0 <= i <= names.len(),
        forall|j: int| 0 <= j < i ==> (#[trigger] names[j]).name@ != name,
    ensures
        i < names.len() && names[i].name@ == name ==> lookup_name(names, name) == Some(
            names[i].code,
        ),
        i == names.len() ==> lookup_name(names, name) is None,
    decreases names.len(),
{
    if i > 0 {
        let rest = names.drop_first();
        assert forall|j: int| 0 <= j < i - 1 implies (#[trigger] rest[j]).name@ != name by {
            assert(rest[j] == names[j + 1]);
        }
        assert(names[0].name@ != name);
        a_name_is_looked_up_in_order(rest, name, i - 1);
    }
}

/// A character has the code of the first entry that types it, and none where no entry does.
pub proof fn a_character_is_looked_up_in_order(chars: Seq<(char, u8)>, c: char, i: int)
    requires
        0 <= i <= chars.len(),
        forall|j: int| 0 <= j < i ==> (#[trigger] chars[j]).0 != c,
    ensures
        i < chars.len() && chars[i].0 == c ==> lookup_char(chars, c) == Some(chars[i].1),
        i == chars.len() ==> lookup_char(chars, c) is None,
    decreases chars.len(),
{
    if i > 0 {
        let rest = chars.drop_first();
        assert forall|j: int| 0 <= j < i - 1 implies (#[trigger] rest[j]).0 != c by {
            assert(rest[j] == chars[j + 1]);
        }
        assert(chars[0].0 != c);
        a_character_is_looked_up_in_order(rest, c, i - 1);
    }
}

} // verus!
