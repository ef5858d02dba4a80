//! The sixteen logical keys of the keypad and the record of which are held.

use vstd::prelude::*;

verus! {

/// Number of logical keys; they are numbered `0x0` to `0xF`.
pub const KEY_COUNT: u8 = 16;

/// Whether bit `i` of `mask` is set. No bit exists outside `0..16`.
pub open spec fn bit_is_set(mask: u16, i: int) -> bool {
    0 <= i < 16 && (mask >> (i as u16)) & 1u16 == 1u16
}

/// The raw key code that the keypad layout assigns to a logical key: the
/// four rows `1 2 3 4`, `q w e r`, `a s d f`, `z y c v` of the keyboard stand
/// for the rows `1 2 3 C`, `4 5 6 D`, `7 8 9 E`, `A 0 B F` of the keypad.
pub open spec fn code_for_key(key: int) -> u32
    recommends
        0 <= key < 16,
{
    if key == 0x0 {
        0x79
    } else if key == 0x1 {
        0x31
    } else if key == 0x2 {
        0x32
    } else if key == 0x3 {
        0x33
    } else if key == 0x4 {
        0x71
    } else if key == 0x5 {
        0x77
    } else if key == 0x6 {
        0x65
    } else if key == 0x7 {
        0x61
    } else if key == 0x8 {
        0x73
    } else if key == 0x9 {
        0x64
    } else if key == 0xA {
        0x7A
    } else if key == 0xB {
        0x63
    } else if key == 0xC {
        0x34
    } else if key == 0xD {
        0x72
    } else if key == 0xE {
        0x66
    } else {
        0x76
    }
}

/// Whether `raw` is the code that the layout assigns to the logical key `key`.
pub open spec fn names_key(raw: u32, key: u8) -> bool {
    key < KEY_COUNT && code_for_key(key as int) == raw
}

/// The logical key that a raw key code stands for, if it stands for one.
pub open spec fn key_for_code(raw: u32) -> Option<u8> {
    if exists|k: u8| names_key(raw, k) {
        Some(choose|k: u8| names_key(raw, k))
    } else {
        None
    }
}

/// No two logical keys share a raw code, so a raw code names at most one key:
/// `key_for_code` is `Some(k)` exactly on the code of key `k`.
pub proof fn lemma_layout_is_one_to_one(raw: u32, key: u8)
    ensures
        key_for_code(raw) == Some(key) <==> names_key(raw, key),
{
    assert forall|a: u8, b: u8| names_key(raw, a) && names_key(raw, b) implies a == b by {}
}

/// Translates a raw key code into the logical key it stands for. A code that
/// stands for no key gives `None`.
pub fn gdk_key_decode(key: u32) -> (decoded: Option<u8>)
    ensures
        decoded == key_for_code(key),
{
    let decoded: Option<u8> = match key {
        0x031 => Some(1),
        0x032 => Some(2),
        0x033 => Some(3),
        0x034 => Some(0xC),
        0x071 => Some(4),
        0x077 => Some(5),
        0x065 => Some(6),
        0x072 => Some(0xD),
        0x061 => Some(7),
        0x073 => Some(8),
        0x064 => Some(9),
        0x066 => Some(0xE),
        0x07A => Some(0xA),
        0x079 => Some(0),
        0x063 => Some(0xB),
        0x076 => Some(0xF),
        _ => None,
    };
    proof {
        match decoded {
            Some(k) => {
                lemma_layout_is_one_to_one(key, k);
            },
            None => {
                assert forall|k: u8| !names_key(key, k) by {}
            },
        }
    }
    decoded
}

/// Which logical keys are held. The model is the set of held key numbers,
/// all of them below sixteen.
#[derive(Clone, Copy, Debug)]
pub struct KeyState {
    mask: u16,
}

impl View for KeyState {
    type V = Set<int>;

    closed spec fn view(&self) -> Set<int> {
        Set::new(|k: int| bit_is_set(self.mask, k))
    }
}

proof fn lemma_bit_after_or(m: u16, k: u16, i: u16)
    by (bit_vector)
    requires
        k < 16,
        i < 16,
    ensures
        (((m | (1u16 << k)) >> i) & 1u16 == 1u16) == (i == k || (m >> i) & 1u16 == 1u16),
{
}

proof fn lemma_bit_after_clear(m: u16, k: u16, i: u16)
    by (bit_vector)
    requires
        k < 16,
        i < 16,
    ensures
        (((m & !(1u16 << k)) >> i) & 1u16 == 1u16) == (i != k && (m >> i) & 1u16 == 1u16),
{
}

proof fn lemma_nonzero_has_a_bit(m: u16)
    by (bit_vector)
    requires
        m != 0,
    ensures
        (m >> 0u16) & 1u16 == 1u16 || (m >> 1u16) & 1u16 == 1u16 || (m >> 2u16) & 1u16 == 1u16 || (m
            >> 3u16) & 1u16 == 1u16 || (m >> 4u16) & 1u16 == 1u16 || (m >> 5u16) & 1u16 == 1u16 || (m
            >> 6u16) & 1u16 == 1u16 || (m >> 7u16) & 1u16 == 1u16 || (m >> 8u16) & 1u16 == 1u16 || (m
            >> 9u16) & 1u16 == 1u16 || (m >> 10u16) & 1u16 == 1u16 || (m >> 11u16) & 1u16 == 1u16 || (m
            >> 12u16) & 1u16 == 1u16 || (m >> 13u16) & 1u16 == 1u16 || (m >> 14u16) & 1u16 == 1u16 || (m
            >> 15u16) & 1u16 == 1u16,
{
}

proof fn lemma_zero_has_no_bit(i: u16)
    by (bit_vector)
    requires
        i < 16,
    ensures
        (0u16 >> i) & 1u16 != 1u16,
{
}

proof fn lemma_zero_mask_is_empty()
    ensures
        forall|k: int| !bit_is_set(0u16, k),
{
    assert forall|k: int| !bit_is_set(0u16, k) by {
        if 0 <= k < 16 {
            lemma_zero_has_no_bit(k as u16);
        }
    }
}

impl KeyState {
    /// The state in which no key is held.
    pub fn new() -> (s: KeyState)
        ensures
            s@ == Set::<int>::empty(),
    {
        let s = KeyState { mask: 0 };
        proof {
            lemma_zero_mask_is_empty();
            assert(s@ =~= Set::<int>::empty());
        }
        s
    }

    /// The state as a bit mask: bit `k` is set exactly if key `k` is held, so
    /// the mask is zero exactly if no key is held.
    pub fn mask(&self) -> (m: u16)
        ensures
            forall|k: int| bit_is_set(m, k) == self@.contains(k),
            (m == 0) == (self@ == Set::<int>::empty()),
    {
        proof {
            if self.mask == 0 {
                lemma_zero_mask_is_empty();
                assert(self@ =~= Set::<int>::empty());
            } else {
                lemma_nonzero_has_a_bit(self.mask);
                assert(exists|k: int| bit_is_set(self.mask, k)) by {
                    let m = self.mask;
                    assert(bit_is_set(m, 0) || bit_is_set(m, 1) || bit_is_set(m, 2) || bit_is_set(m, 3)
                        || bit_is_set(m, 4) || bit_is_set(m, 5) || bit_is_set(m, 6) || bit_is_set(m, 7)
                        || bit_is_set(m, 8) || bit_is_set(m, 9) || bit_is_set(m, 10) || bit_is_set(m, 11)
                        || bit_is_set(m, 12) || bit_is_set(m, 13) || bit_is_set(m, 14) || bit_is_set(
                        m,
                        15,
                    ));
                }
                let k = choose|k: int| bit_is_set(self.mask, k);
                assert(self@.contains(k));
            }
        }
        self.mask
    }

    /// Every held key is one of the sixteen logical keys.
    pub proof fn lemma_held_keys_are_logical(self)
        ensures
            forall|k: int| self@.contains(k) ==> 0 <= k < KEY_COUNT,
    {
    }

    /// Marks `key` as held. Holding a key that is already held changes nothing.
    pub fn set_pressed(&mut self, key: u8)
        requires
            key < KEY_COUNT,
        ensures
            final(self)@ == old(self)@.insert(key as int),
    {
        let bit: u16 = 1u16 << (key as u16);
        let ghost before = self.mask;
        self.mask = self.mask | bit;
        proof {
            assert forall|i: int| self@.contains(i) == (i == key || old(self)@.contains(i)) by {
                if 0 <= i < 16 {
                    lemma_bit_after_or(before, key as u16, i as u16);
                }
            }
            assert(self@ =~= old(self)@.insert(key as int));
        }
    }

    /// Marks `key` as not held. Releasing a key that is not held changes nothing.
    pub fn set_released(&mut self, key: u8)
        requires
            key < KEY_COUNT,
        ensures
            final(self)@ == old(self)@.remove(key as int),
    {
        let bit: u16 = 1u16 << (key as u16);
        let ghost before = self.mask;
        self.mask = self.mask & !bit;
        proof {
            assert forall|i: int| self@.contains(i) == (i != key && old(self)@.contains(i)) by {
                if 0 <= i < 16 {
                    lemma_bit_after_clear(before, key as u16, i as u16);
                }
            }
            assert(self@ =~= old(self)@.remove(key as int));
        }
    }

    /// Whether `key` is held. A number that names no logical key is never held.
    pub fn is_pressed(&self, key: u8) -> (held: bool)
        ensures
            held == self@.contains(key as int),
    {
        key < KEY_COUNT && (self.mask >> (key as u16)) & 1u16 == 1u16
    }

    /// Records a key-down event of the keyboard: the logical key that
    /// `raw_code` stands for becomes held. A code that stands for no logical
    /// key is ignored.
    pub fn on_key_down(&mut self, raw_code: u32)
        ensures
            final(self)@ == match key_for_code(raw_code) {
                Some(k) => old(self)@.insert(k as int),
                None => old(self)@,
            },
    {
        match gdk_key_decode(raw_code) {
            Some(k) => {
                proof {
                    lemma_layout_is_one_to_one(raw_code, k);
                }
                self.set_pressed(k);
            },
            None => {},
        }
    }

    /// Records a key-up event of the keyboard: the logical key that
    /// `raw_code` stands for is no longer held. A code that stands for no
    /// logical key is ignored.
    pub fn on_key_up(&mut self, raw_code: u32)
        ensures
            final(self)@ == match key_for_code(raw_code) {
                Some(k) => old(self)@.remove(k as int),
                None => old(self)@,
            },
    {
        match gdk_key_decode(raw_code) {
            Some(k) => {
                proof {
                    lemma_layout_is_one_to_one(raw_code, k);
                }
                self.set_released(k);
            },
            None => {},
        }
    }

    /// The lowest-numbered held key, or `None` when no key is held.
    pub fn any_pressed(&self) -> (found: Option<u8>)
        ensures
            match found {
                Some(k) => self@.contains(k as int) && forall|j: int| 0 <= j < k ==> !self@.contains(j),
                None => self@ == Set::<int>::empty(),
            },
    {
        let mut k: u8 = 0;
        while k < KEY_COUNT
            invariant
                k <= KEY_COUNT,
                forall|j: int| 0 <= j < k ==> !self@.contains(j),
            decreases KEY_COUNT - k,
        {
            if self.is_pressed(k) {
                return Some(k);
            }
            k += 1;
        }
        proof {
            assert(self@ =~= Set::<int>::empty());
        }
        None
    }
}

/// One call on a key state: `set_pressed` or `set_released` of a logical key.
pub enum KeyCall {
    Press(u8),
    Release(u8),
}

impl KeyCall {
    /// The logical key that the call is about.
    pub open spec fn key(self) -> int {
        match self {
            KeyCall::Press(k) => k as int,
            KeyCall::Release(k) => k as int,
        }
    }
}

/// The held keys after one call, as `set_pressed` and `set_released` leave them.
pub open spec fn held_after_call(held: Set<int>, call: KeyCall) -> Set<int> {
    match call {
        KeyCall::Press(k) => held.insert(k as int),
        KeyCall::Release(k) => held.remove(k as int),
    }
}

/// The held keys after a sequence of calls, made in order.
pub open spec fn held_after_calls(held: Set<int>, calls: Seq<KeyCall>) -> Set<int>
    decreases calls.len(),
{
    if calls.len() == 0 {
        held
    } else {
        held_after_call(held_after_calls(held, calls.drop_last()), calls.last())
    }
}

/// After any sequence of calls, whether a key is held is decided by the last
/// call about that key alone: held after a press, not held after a release,
/// however many calls about it or about other keys came before.
pub proof fn lemma_last_call_decides(held: Set<int>, calls: Seq<KeyCall>, i: int)
    requires
        0 <= i < calls.len(),
        forall|j: int| i < j < calls.len() ==> calls[j].key() != calls[i].key(),
    ensures
        held_after_calls(held, calls).contains(calls[i].key()) == (calls[i] is Press),
    decreases calls.len(),
{
    if i < calls.len() - 1 {
        let earlier = calls.drop_last();
        assert(earlier[i] == calls[i]);
        assert forall|j: int| i < j < earlier.len() implies earlier[j].key() != earlier[i].key() by {
            assert(earlier[j] == calls[j]);
        }
        lemma_last_call_decides(held, earlier, i);
    }
}

/// A key that no call in the sequence is about is held afterwards exactly if
/// it was held before.
pub proof fn lemma_uncalled_key_is_unchanged(held: Set<int>, calls: Seq<KeyCall>, key: int)
    requires
        forall|j: int| 0 <= j < calls.len() ==> calls[j].key() != key,
    ensures
        held_after_calls(held, calls).contains(key) == held.contains(key),
    decreases calls.len(),
{
    if calls.len() > 0 {
        let earlier = calls.drop_last();
        assert forall|j: int| 0 <= j < earlier.len() implies earlier[j].key() != key by {
            assert(earlier[j] == calls[j]);
        }
        lemma_uncalled_key_is_unchanged(held, earlier, key);
    }
}

/// Pressing and releasing are idempotent: a call made twice in a row leaves
/// the keys as the call made once does.
pub proof fn lemma_repeated_call_changes_nothing(held: Set<int>, call: KeyCall)
    ensures
        held_after_call(held_after_call(held, call), call) == held_after_call(held, call),
{
    assert(held_after_call(held_after_call(held, call), call) =~= held_after_call(held, call));
}

} // verus!
