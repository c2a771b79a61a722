//! Object paths of the resource hub.
//!
//! A connection is opened by a path made of a fixed prefix and the sixteen
//! lower-case hexadecimal digits of its id.
use vstd::prelude::*;

verus! {

/// The prefix, with forward slashes.
pub const RESOURCE_HUB_PREFIX: &'static str = "/Device/RESOURCE_HUB/";

/// Length of the prefix.
pub const RESOURCE_HUB_PREFIX_CHARS: usize = 21;

/// Length of a whole path.
pub const HUB_PATH_CHARS: usize = 37;

/// A path of the resource hub.
#[derive(Debug, Clone, Copy)]
pub struct HubPath {
    chars: [u16; HUB_PATH_CHARS],
}

/// The number that a lower-case hexadecimal digit stands for.
pub open spec fn digit_value(unit: int) -> int {
    if unit < 0x3A {
        unit - 0x30
    } else {
        unit - 0x61 + 10
    }
}

/// Whether a unit is a lower-case hexadecimal digit.
pub open spec fn is_hex_digit(unit: u16) -> bool {
    0x30 <= unit <= 0x39 || 0x61 <= unit <= 0x66
}

/// The number that some hexadecimal digits stand for, highest first.
pub open spec fn hex_value(digits: Seq<u16>) -> int
    decreases digits.len(),
{
    if digits.len() == 0 {
        0
    } else {
        16 * hex_value(digits.drop_last()) + digit_value(digits.last() as int)
    }
}

/// Whether some units are a path: the prefix with backslashes, then digits.
pub open spec fn is_hub_path(chars: Seq<u16>) -> bool {
    &&& chars.len() == HUB_PATH_CHARS
    &&& forall|i: int|
        0 <= i < RESOURCE_HUB_PREFIX_CHARS ==> #[trigger] chars[i] == crate::names::path_unit(
            RESOURCE_HUB_PREFIX@[i] as u8,
        )
    &&& forall|i: int|
        RESOURCE_HUB_PREFIX_CHARS <= i < HUB_PATH_CHARS ==> is_hex_digit(#[trigger] chars[i])
}

/// The id that a path ends with.
pub open spec fn path_id(chars: Seq<u16>) -> int {
    hex_value(chars.skip(RESOURCE_HUB_PREFIX_CHARS as int))
}

impl View for HubPath {
    type V = Seq<u16>;

    closed spec fn view(&self) -> Seq<u16> {
        self.chars@
    }
}

/// The path of a connection.
pub fn resource_hub_path(peripheral_id: u64) -> (path: HubPath)
    ensures
        is_hub_path(path@),
        path_id(path@) == peripheral_id,
{
    proof {
        reveal_strlit("/Device/RESOURCE_HUB/");
    }
    assert(RESOURCE_HUB_PREFIX@.len() == RESOURCE_HUB_PREFIX_CHARS);
    assert(RESOURCE_HUB_PREFIX.is_ascii());
    let prefix = RESOURCE_HUB_PREFIX.as_bytes();
    let mut chars: [u16; HUB_PATH_CHARS] = [0;37];
    let mut index: usize = 0;
    while index < RESOURCE_HUB_PREFIX_CHARS
        invariant
            index <= RESOURCE_HUB_PREFIX_CHARS,
            prefix@.len() == RESOURCE_HUB_PREFIX_CHARS,
            forall|i: int|
                0 <= i < RESOURCE_HUB_PREFIX_CHARS ==> #[trigger] prefix@[i]
                    == RESOURCE_HUB_PREFIX@[i] as u8,
            forall|i: int|
                0 <= i < index ==> #[trigger] chars@[i] == crate::names::path_unit(
                    RESOURCE_HUB_PREFIX@[i] as u8,
                ),
        decreases RESOURCE_HUB_PREFIX_CHARS - index,
    {
        let byte: u8 = prefix[index];
        chars[index] = if byte == 0x2F { 0x5C } else { byte as u16 };
        index = index + 1;
    }
    let mut position: u32 = 0;
    while position < 16
        invariant
            position <= 16,
            forall|i: int|
                0 <= i < RESOURCE_HUB_PREFIX_CHARS ==> #[trigger] chars@[i]
                    == crate::names::path_unit(RESOURCE_HUB_PREFIX@[i] as u8),
            forall|i: int|
                RESOURCE_HUB_PREFIX_CHARS <= i < RESOURCE_HUB_PREFIX_CHARS + position
                    ==> is_hex_digit(#[trigger] chars@[i]),
            position < 16 ==> hex_value(
                chars@.subrange(
                    RESOURCE_HUB_PREFIX_CHARS as int,
                    RESOURCE_HUB_PREFIX_CHARS + position,
                ),
            ) == if position == 0 {
                0int
            } else {
                (peripheral_id >> ((64 - 4 * position) as u64)) as int
            },
            position == 16 ==> hex_value(
                chars@.subrange(RESOURCE_HUB_PREFIX_CHARS as int, HUB_PATH_CHARS as int),
            ) == peripheral_id,
        decreases 16 - position,
    {
        let shift: u64 = 60 - 4 * (position as u64);
        let nibble: u64 = (peripheral_id >> shift) & 0xF;
        proof {
            assert(nibble < 16) by (bit_vector)
                requires
                    nibble == (peripheral_id >> shift) & 0xF,
            ;
            let up: u64 = (shift + 4) as u64;
            assert(shift == 60 ==> peripheral_id >> shift == nibble) by (bit_vector)
                requires
                    shift <= 60,
                    nibble == (peripheral_id >> shift) & 0xF,
            ;
            assert(shift < 60 ==> peripheral_id >> shift == 16 * (peripheral_id >> up) + nibble)
                by (bit_vector)
                requires
                    shift <= 60,
                    up == shift + 4,
                    nibble == (peripheral_id >> shift) & 0xF,
            ;
            assert(peripheral_id >> 0u64 == peripheral_id) by (bit_vector);
        }
        let symbol: u16 = if nibble < 10 { 0x30 + nibble as u16 } else { 0x61 + (nibble as u16 - 10) };
        let at: usize = RESOURCE_HUB_PREFIX_CHARS + position as usize;
        let ghost before = chars@.subrange(
            RESOURCE_HUB_PREFIX_CHARS as int,
            RESOURCE_HUB_PREFIX_CHARS + position,
        );
        chars[at] = symbol;
        proof {
            let after = chars@.subrange(
                RESOURCE_HUB_PREFIX_CHARS as int,
                RESOURCE_HUB_PREFIX_CHARS + position + 1,
            );
            assert(after.drop_last() =~= before);
            assert(after.last() == symbol);
        }
        position = position + 1;
    }
    proof {
        assert(chars@.skip(RESOURCE_HUB_PREFIX_CHARS as int) =~= chars@.subrange(
            RESOURCE_HUB_PREFIX_CHARS as int,
            HUB_PATH_CHARS as int,
        ));
    }
    HubPath { chars }
}

impl HubPath {
    /// Length of the path in bytes.
    pub fn byte_length(&self) -> (length: u16)
        ensures
            length == 2 * HUB_PATH_CHARS,
    {
        (HUB_PATH_CHARS * 2) as u16
    }

    /// The units of the path.
    pub fn units(&self) -> (chars: [u16; HUB_PATH_CHARS])
        ensures
            chars@ == self@,
    {
        self.chars
    }

    /// The path in ASCII; a unit that is not is a question mark.
    pub fn as_ascii(&self) -> (out: [u8; HUB_PATH_CHARS])
        ensures
            forall|i: int|
                0 <= i < HUB_PATH_CHARS ==> #[trigger] out@[i] == (if self@[i] <= 0xFF {
                    self@[i] as u8
                } else {
                    0x3Fu8
                }),
    {
        let mut out: [u8; HUB_PATH_CHARS] = [0;37];
        let mut index: usize = 0;
        while index < HUB_PATH_CHARS
            invariant
                index <= HUB_PATH_CHARS,
                forall|i: int|
                    0 <= i < index ==> #[trigger] out@[i] == (if self.chars@[i] <= 0xFF {
                        self.chars@[i] as u8
                    } else {
                        0x3Fu8
                    }),
            decreases HUB_PATH_CHARS - index,
        {
            let unit: u16 = self.chars[index];
            out[index] = if unit <= 0xFF { unit as u8 } else { 0x3F };
            index = index + 1;
        }
        out
    }
}

/// Two connections never share a path.
pub proof fn law_paths_identify_connections(a: Seq<u16>, b: Seq<u16>)
    requires
        is_hub_path(a),
        is_hub_path(b),
        path_id(a) == path_id(b),
    ensures
        a == b,
{
    let x = a.skip(RESOURCE_HUB_PREFIX_CHARS as int);
    let y = b.skip(RESOURCE_HUB_PREFIX_CHARS as int);
    assert forall|i: int| 0 <= i < 16 implies is_hex_digit(#[trigger] x[i]) && is_hex_digit(
        y[i],
    ) by {
        assert(x[i] == a[i + RESOURCE_HUB_PREFIX_CHARS]);
        assert(y[i] == b[i + RESOURCE_HUB_PREFIX_CHARS]);
    }
    lemma_hex_value_injective(x, y);
    assert forall|i: int| 0 <= i < HUB_PATH_CHARS implies a[i] == b[i] by {
        if i >= RESOURCE_HUB_PREFIX_CHARS {
            assert(a[i] == x[i - RESOURCE_HUB_PREFIX_CHARS]);
            assert(b[i] == y[i - RESOURCE_HUB_PREFIX_CHARS]);
        }
    }
    assert(a =~= b);
}

/// Digits are determined by their number and value.
proof fn lemma_hex_value_injective(x: Seq<u16>, y: Seq<u16>)
    requires
        x.len() == y.len(),
        forall|i: int| 0 <= i < x.len() ==> is_hex_digit(#[trigger] x[i]),
        forall|i: int| 0 <= i < y.len() ==> is_hex_digit(#[trigger] y[i]),
        hex_value(x) == hex_value(y),
    ensures
        x == y,
    decreases x.len(),
{
    if x.len() > 0 {
        assert(is_hex_digit(x.last()) && is_hex_digit(y.last()));
        assert(hex_value(x.drop_last()) == hex_value(y.drop_last()));
        lemma_hex_value_injective(x.drop_last(), y.drop_last());
        assert(x =~= x.drop_last().push(x.last()));
        assert(y =~= y.drop_last().push(y.last()));
    } else {
        assert(x =~= y);
    }
}

/// A digit more is the next lower one, and the symbols stand for zero to fifteen in order.
pub proof fn law_digits_have_their_values(digits: Seq<u16>, unit: u16, n: int)
    requires
        0 <= n < 16,
        unit == if n < 10 {
            0x30 + n
        } else {
            0x57 + n
        },
    ensures
        is_hex_digit(unit),
        hex_value(Seq::empty()) == 0,
        hex_value(digits.push(unit)) == 16 * hex_value(digits) + n,
{
    assert(digits.push(unit).drop_last() =~= digits);
}

/// A path starts with the directory of the hub, and its last symbol is the lowest digit of
/// the id.
pub proof fn law_path_starts_at_the_hub(chars: Seq<u16>)
    requires
        is_hub_path(chars),
    ensures
        chars.len() == 37,
        chars[0] == 0x5C && chars[7] == 0x5C && chars[20] == 0x5C,
        chars.subrange(1, 7) == seq![0x44u16, 0x65, 0x76, 0x69, 0x63, 0x65],
        chars.subrange(8, 20) == seq![
            0x52u16,
            0x45,
            0x53,
            0x4F,
            0x55,
            0x52,
            0x43,
            0x45,
            0x5F,
            0x48,
            0x55,
            0x42,
        ],
        path_id(chars) % 16 == digit_value(chars[36] as int),
{
    reveal_strlit("/Device/RESOURCE_HUB/");
    let digits = chars.skip(21);
    assert(digits.last() == chars[36]);
    assert(is_hex_digit(chars[36]));
}

} // verus!
