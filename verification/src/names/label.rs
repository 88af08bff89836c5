//! What may serve as a name.

use vstd::prelude::*;

use crate::host::{text_bytes, text_len, text_to_vec};

verus! {

// The ASCII codes of `a`, `z`, `0`, `9` and `-`.
pub const LOWER_A: u8 = 0x61;

pub const LOWER_Z: u8 = 0x7a;

pub const DIGIT_0: u8 = 0x30;

pub const DIGIT_9: u8 = 0x39;

pub const HYPHEN: u8 = 0x2d;

/// Lowercase ASCII letters and digits.
pub open spec fn alphanumeric(b: u8) -> bool {
    LOWER_A <= b <= LOWER_Z || DIGIT_0 <= b <= DIGIT_9
}

/// 3 to 32 lowercase letters, digits and hyphens, with no hyphen at either end and no
/// two in a row.
pub open spec fn valid_name(name: Seq<u8>) -> bool {
    &&& 3 <= name.len() <= 32
    &&& forall|i: int| 0 <= i < name.len() ==> alphanumeric(#[trigger] name[i]) || name[i] == HYPHEN
    &&& name.first() != HYPHEN
    &&& name.last() != HYPHEN
    &&& forall|i: int, j: int|
        0 <= i && j == i + 1 && j < name.len() ==> !(#[trigger] name[i] == HYPHEN
            && #[trigger] name[j] == HYPHEN)
}

/// Whether `bytes` may serve as a name.
pub fn is_valid_name(bytes: &Vec<u8>) -> (r: bool)
    ensures
        r == valid_name(bytes@),
{
    let n: usize = bytes.len();
    if n < 3 || n > 32 {
        return false;
    }
    if bytes[0] == HYPHEN || bytes[n - 1] == HYPHEN {
        return false;
    }
    let mut prev_hyphen = false;
    let mut i: usize = 0;
    while i < n
        invariant
            i <= n == bytes.len(),
            3 <= n <= 32,
            bytes@.first() != HYPHEN,
            bytes@.last() != HYPHEN,
            prev_hyphen == (i > 0 && bytes@[i - 1] == HYPHEN),
            forall|k: int| 0 <= k < i ==> alphanumeric(#[trigger] bytes@[k]) || bytes@[k] == HYPHEN,
            forall|k: int, l: int|
                0 <= k && l == k + 1 && l < i ==> !(#[trigger] bytes@[k] == HYPHEN
                    && #[trigger] bytes@[l] == HYPHEN),
        decreases n - i,
    {
        let b: u8 = bytes[i];
        if (LOWER_A <= b && b <= LOWER_Z) || (DIGIT_0 <= b && b <= DIGIT_9) {
            prev_hyphen = false;
        } else if b == HYPHEN {
            if prev_hyphen {
                assert(bytes@[i - 1] == HYPHEN && bytes@[i as int] == HYPHEN);
                return false;
            }
            prev_hyphen = true;
        } else {
            assert(!alphanumeric(bytes@[i as int]));
            return false;
        }
        i += 1;
    }
    true
}

/// Whether the host string `name` may serve as a name.
pub fn validate_name(name: &soroban_sdk::String) -> (r: bool)
    ensures
        r == valid_name(text_bytes(*name)),
{
    let len: u32 = text_len(name);
    if len < 3 || len > 32 {
        return false;
    }
    is_valid_name(&text_to_vec(name))
}

/// What a name is, seen from its hyphens: 3 to 32 bytes, of which each is a lowercase
/// letter, a digit, or a hyphen that stands between two letters or digits.
pub proof fn law_hyphens_stand_between(name: Seq<u8>)
    ensures
        valid_name(name) <==> {
            &&& 3 <= name.len() <= 32
            &&& forall|i: int|
                0 <= i < name.len() ==> {
                    let b = #[trigger] name[i];
                    ||| 0x61 <= b <= 0x7a
                    ||| 0x30 <= b <= 0x39
                    ||| b == 0x2d && 0 < i < name.len() - 1 && name[i - 1] != 0x2d && name[i + 1]
                        != 0x2d
                }
        },
{
    if valid_name(name) {
        assert forall|i: int| 0 <= i < name.len() implies {
            let b = #[trigger] name[i];
            ||| 0x61 <= b <= 0x7a
            ||| 0x30 <= b <= 0x39
            ||| b == 0x2d && 0 < i < name.len() - 1 && name[i - 1] != 0x2d && name[i + 1] != 0x2d
        } by {
            assert(alphanumeric(name[i]) || name[i] == HYPHEN);
            if name[i] == 0x2d {
                assert(i != 0 && i != name.len() - 1);
                assert(!(name[i - 1] == HYPHEN && name[i] == HYPHEN));
                assert(!(name[i] == HYPHEN && name[i + 1] == HYPHEN));
            }
        }
    }
    if 3 <= name.len() <= 32 && !valid_name(name) {
        assert(name[0] == name.first());
        assert(name[name.len() - 1] == name.last());
    }
}

/// A name read backwards is a name, and two names joined by a hyphen are one where that is
/// not too long.
pub proof fn law_names_from_names(one: Seq<u8>, other: Seq<u8>)
    requires
        valid_name(one),
        valid_name(other),
    ensures
        valid_name(one.reverse()),
        one.len() + other.len() + 1 <= 32 ==> valid_name(one.push(HYPHEN) + other),
{
    let back = one.reverse();
    assert(forall|i: int| 0 <= i < back.len() ==> #[trigger] back[i] == one[one.len() - 1 - i]);
    assert(back.first() == one.last());
    assert(back.last() == one.first());
    let joined = one.push(HYPHEN) + other;
    assert(joined.first() == one.first());
    assert(joined.last() == other.last());
    assert(joined[one.len() - 1] == one.last());
    assert(joined[one.len() as int + 1] == other.first());
    assert forall|i: int, j: int|
        0 <= i && j == i + 1 && j < joined.len() implies !(#[trigger] joined[i] == HYPHEN
        && #[trigger] joined[j] == HYPHEN) by {
        if j < one.len() {
            assert(!(one[i] == HYPHEN && one[j] == HYPHEN));
        } else if i > one.len() {
            assert(!(other[i - one.len() - 1] == HYPHEN && other[j - one.len() - 1] == HYPHEN));
        }
    }
}

} // verus!
