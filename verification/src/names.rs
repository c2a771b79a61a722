//! Names as the operating system wants them: UTF-16, in fixed buffers.
use vstd::prelude::*;
use vstd::string::StringSliceAdditionalSpecFns;

verus! {

/// Room for the symbolic link.
pub const SYMLINK_CHARS: usize = 24;

/// The symbolic link, with forward slashes.
pub const SYMLINK_NAME: &'static str = "/DosDevices/nabu_ln8000";

/// Length of the access policy.
pub const SDDL_CHARS: usize = 27;

/// The access policy: full access for the system and for administrators,
/// nothing for anybody else.
pub const SDDL_TEXT: &'static str = "D:P(A;;GA;;;SY)(A;;GA;;;BA)";

/// Length of the reason for keeping the system awake.
pub const REASON_LEN: usize = 23;

/// The reason for keeping the system awake.
pub const REASON_TEXT: &'static str = "nabu ln8000 charge pump";

/// The unit for one byte of an object path: a slash becomes a backslash.
pub open spec fn path_unit(byte: u8) -> u16 {
    if byte == 0x2F {
        0x5C
    } else {
        byte as u16
    }
}

/// Widens an object path written with forward slashes, cut or filled with
/// zeros to the buffer's length.
pub fn utf16_lit(ascii: &str) -> (out: [u16; SYMLINK_CHARS])
    ensures
        forall|i: int|
            0 <= i < SYMLINK_CHARS ==> #[trigger] out@[i] == (if i < ascii.spec_bytes().len() {
                path_unit(ascii.spec_bytes()[i])
            } else {
                0u16
            }),
{
    let bytes = ascii.as_bytes();
    let mut out: [u16; SYMLINK_CHARS] = [0;24];
    let mut index: usize = 0;
    while index < bytes.len() && index < SYMLINK_CHARS
        invariant
            bytes@ == ascii.spec_bytes(),
            index <= bytes@.len(),
            index <= SYMLINK_CHARS,
            forall|i: int| 0 <= i < index ==> #[trigger] out@[i] == path_unit(bytes@[i]),
            forall|i: int| index <= i < SYMLINK_CHARS ==> #[trigger] out@[i] == 0u16,
        decreases SYMLINK_CHARS - index,
    {
        let byte: u8 = bytes[index];
        out[index] = if byte == 0x2F { 0x5C } else { byte as u16 };
        index = index + 1;
    }
    out
}

/// Widens a text into a buffer, as far as it fits; returns how many units were
/// written.
pub fn utf16_into(buffer: &mut [u16], text: &str) -> (len: usize)
    ensures
        final(buffer)@.len() == old(buffer)@.len(),
        len == if text.spec_bytes().len() < old(buffer)@.len() {
            text.spec_bytes().len() as int
        } else {
            old(buffer)@.len() as int
        },
        forall|i: int|
            0 <= i < len ==> #[trigger] final(buffer)@[i] == text.spec_bytes()[i] as u16,
        forall|i: int|
            len <= i < old(buffer)@.len() ==> #[trigger] final(buffer)@[i] == old(buffer)@[i],
{
    let bytes = text.as_bytes();
    let mut len: usize = 0;
    while len < bytes.len() && len < buffer.len()
        invariant
            bytes@ == text.spec_bytes(),
            buffer@.len() == old(buffer)@.len(),
            len <= bytes@.len(),
            len <= buffer@.len(),
            forall|i: int| 0 <= i < len ==> #[trigger] buffer@[i] == bytes@[i] as u16,
            forall|i: int|
                len <= i < buffer@.len() ==> #[trigger] buffer@[i] == old(buffer)@[i],
        decreases bytes@.len() - len,
    {
        buffer[len] = bytes[len] as u16;
        len = len + 1;
    }
    len
}

/// Widens the access policy; every unit is one byte of the text.
pub fn ascii_utf16(text: &str) -> (out: [u16; SDDL_CHARS])
    requires
        text.spec_bytes().len() >= SDDL_CHARS,
    ensures
        forall|i: int| 0 <= i < SDDL_CHARS ==> #[trigger] out@[i] == text.spec_bytes()[i] as u16,
{
    let bytes = text.as_bytes();
    let mut out: [u16; SDDL_CHARS] = [0;27];
    let mut index: usize = 0;
    while index < SDDL_CHARS
        invariant
            bytes@ == text.spec_bytes(),
            bytes@.len() >= SDDL_CHARS,
            index <= SDDL_CHARS,
            forall|i: int| 0 <= i < index ==> #[trigger] out@[i] == bytes@[i] as u16,
        decreases SDDL_CHARS - index,
    {
        out[index] = bytes[index] as u16;
        index = index + 1;
    }
    out
}

/// Widens the reason text; every unit is one byte of the text.
pub fn widen(text: &str) -> (out: [u16; REASON_LEN])
    requires
        text.spec_bytes().len() >= REASON_LEN,
    ensures
        forall|i: int| 0 <= i < REASON_LEN ==> #[trigger] out@[i] == text.spec_bytes()[i] as u16,
{
    let bytes = text.as_bytes();
    let mut out: [u16; REASON_LEN] = [0;23];
    let mut index: usize = 0;
    while index < REASON_LEN
        invariant
            bytes@ == text.spec_bytes(),
            bytes@.len() >= REASON_LEN,
            index <= REASON_LEN,
            forall|i: int| 0 <= i < index ==> #[trigger] out@[i] == bytes@[i] as u16,
        decreases REASON_LEN - index,
    {
        out[index] = bytes[index] as u16;
        index = index + 1;
    }
    out
}

/// The driver's own texts are plain ASCII and fit their buffers: the access policy
/// and the reason fill theirs, the link leaves room for its terminator.
pub proof fn law_texts_fit_their_buffers()
    ensures
        SDDL_TEXT.is_ascii(),
        SDDL_TEXT.spec_bytes().len() == SDDL_CHARS,
        REASON_TEXT.is_ascii(),
        REASON_TEXT.spec_bytes().len() == REASON_LEN,
        SYMLINK_NAME.is_ascii(),
        SYMLINK_NAME.spec_bytes().len() == SYMLINK_CHARS - 1,
{
    reveal_strlit("D:P(A;;GA;;;SY)(A;;GA;;;BA)");
    reveal_strlit("nabu ln8000 charge pump");
    reveal_strlit("/DosDevices/nabu_ln8000");
    assert(SDDL_TEXT@.len() == 27 && SDDL_TEXT.is_ascii());
    assert(REASON_TEXT@.len() == 23 && REASON_TEXT.is_ascii());
    assert(SYMLINK_NAME@.len() == 23 && SYMLINK_NAME.is_ascii());
}

/// Room for the name of a registry value.
pub const VALUE_NAME_CHARS: usize = 32;

/// The name of a registry value in a fixed buffer.
pub struct ValueName {
    /// The units, filled with zeros.
    pub chars: [u16; VALUE_NAME_CHARS],
    /// Length in bytes.
    pub length: u16,
}

/// Puts the name of a registry value into a fixed buffer, cut to its length.
/// An empty name is none.
pub fn value_name(name: &str) -> (r: Option<ValueName>)
    ensures
        r is None <==> name.spec_bytes().len() == 0,
        r matches Some(v) ==> {
            let n = if name.spec_bytes().len() < VALUE_NAME_CHARS {
                name.spec_bytes().len() as int
            } else {
                VALUE_NAME_CHARS as int
            };
            &&& v.length == 2 * n
            &&& forall|i: int|
                0 <= i < VALUE_NAME_CHARS ==> #[trigger] v.chars@[i] == (if i < n {
                    name.spec_bytes()[i] as u16
                } else {
                    0u16
                })
        },
{
    let mut chars: [u16; VALUE_NAME_CHARS] = [0;32];
    let len: usize = utf16_into(&mut chars, name);
    if len == 0 {
        return None;
    }
    Some(ValueName { chars, length: (len * 2) as u16 })
}

/// Room for the driver's registry path, with its terminator.
pub const REGISTRY_PATH_CHARS: usize = 260;

/// The driver's registry path, kept for the management interface.
pub struct RegistryPath {
    /// The units and their terminator.
    pub chars: Vec<u16>,
    /// Length in bytes, without the terminator.
    pub length: u16,
    /// Length in bytes, with it.
    pub maximum_length: u16,
}

/// Keeps a copy of a registry path: cut so that its terminator fits the room,
/// and terminated. An empty path is not kept.
pub fn set_registry_path(path: &[u16]) -> (kept: Option<RegistryPath>)
    ensures
        kept is None <==> path@.len() == 0,
        kept matches Some(k) ==> {
            let n = if path@.len() < REGISTRY_PATH_CHARS - 1 {
                path@.len() as int
            } else {
                REGISTRY_PATH_CHARS - 1
            };
            &&& k.chars@ == path@.take(n).push(0)
            &&& k.length == 2 * n
            &&& k.maximum_length == 2 * (n + 1)
        },
{
    if path.len() == 0 {
        return None;
    }
    let limit: usize = if path.len() < REGISTRY_PATH_CHARS - 1 {
        path.len()
    } else {
        REGISTRY_PATH_CHARS - 1
    };
    let mut chars: Vec<u16> = Vec::new();
    while chars.len() < limit
        invariant
            limit <= path@.len(),
            limit < REGISTRY_PATH_CHARS,
            chars@.len() <= limit,
            chars@ == path@.take(chars@.len() as int),
        decreases limit - chars@.len(),
    {
        let next: usize = chars.len();
        assert(path@.take(next + 1) =~= path@.take(next as int).push(path@[next as int]));
        chars.push(path[next]);
    }
    chars.push(0);
    Some(
        RegistryPath {
            chars,
            length: (limit * 2) as u16,
            maximum_length: ((limit + 1) * 2) as u16,
        },
    )
}

/// A slash is turned and every other byte is kept.
pub proof fn law_slashes_are_turned(byte: u8)
    ensures
        byte == 47 ==> path_unit(byte) == 92,
        byte != 47 ==> path_unit(byte) == byte,
{
}

} // verus!
