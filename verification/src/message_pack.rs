//! Operations on the wire: a list of operations as MessagePack.
//!
//! A list is written as an array with one element, the array of the
//! operations. An operation without a value is written as its name, an
//! operation with a value as a map from its name to its value. Reading takes
//! every operation that it knows in this form, and keeps the name of every
//! other one.

use crate::operations::{Operation, Operations};
use crate::orientation::Rotation;
use vstd::prelude::*;

verus! {

/// The names that the wire format knows.
#[derive(Debug, Clone, Copy, PartialEq, Eq, Structural)]
pub enum Name {
    Clip,
    MirrorHorizontally,
    MirrorVertically,
    Rotate,
    Quarter0,
    Quarter1,
    Quarter2,
    Quarter3,
}

impl Name {
    /// The name as it is written: `Clip`, `MirrorHorizontally`,
    /// `MirrorVertically`, `Rotate`, and for the rotations `_0`, `_90`,
    /// `_180` and `_270`.
    pub open spec fn bytes(self) -> Seq<u8> {
        match self {
            Name::Clip => seq![0x43u8, 0x6c, 0x69, 0x70],
            Name::MirrorHorizontally => seq![
                0x4du8,
                0x69,
                0x72,
                0x72,
                0x6f,
                0x72,
                0x48,
                0x6f,
                0x72,
                0x69,
                0x7a,
                0x6f,
                0x6e,
                0x74,
                0x61,
                0x6c,
                0x6c,
                0x79,
            ],
            Name::MirrorVertically => seq![
                0x4du8,
                0x69,
                0x72,
                0x72,
                0x6f,
                0x72,
                0x56,
                0x65,
                0x72,
                0x74,
                0x69,
                0x63,
                0x61,
                0x6c,
                0x6c,
                0x79,
            ],
            Name::Rotate => seq![0x52u8, 0x6f, 0x74, 0x61, 0x74, 0x65],
            Name::Quarter0 => seq![0x5fu8, 0x30],
            Name::Quarter1 => seq![0x5fu8, 0x39, 0x30],
            Name::Quarter2 => seq![0x5fu8, 0x31, 0x38, 0x30],
            Name::Quarter3 => seq![0x5fu8, 0x32, 0x37, 0x30],
        }
    }

    /// The name that the bytes spell, if they spell one.
    pub open spec fn of(bytes: Seq<u8>) -> Option<Name> {
        if bytes == Name::Clip.bytes() {
            Some(Name::Clip)
        } else if bytes == Name::MirrorHorizontally.bytes() {
            Some(Name::MirrorHorizontally)
        } else if bytes == Name::MirrorVertically.bytes() {
            Some(Name::MirrorVertically)
        } else if bytes == Name::Rotate.bytes() {
            Some(Name::Rotate)
        } else if bytes == Name::Quarter0.bytes() {
            Some(Name::Quarter0)
        } else if bytes == Name::Quarter1.bytes() {
            Some(Name::Quarter1)
        } else if bytes == Name::Quarter2.bytes() {
            Some(Name::Quarter2)
        } else if bytes == Name::Quarter3.bytes() {
            Some(Name::Quarter3)
        } else {
            None
        }
    }

    /// The name of a rotation.
    pub open spec fn of_rotation(rotation: Rotation) -> Name {
        match rotation {
            Rotation::_0 => Name::Quarter0,
            Rotation::_90 => Name::Quarter1,
            Rotation::_180 => Name::Quarter2,
            Rotation::_270 => Name::Quarter3,
        }
    }

    /// The rotation that a name stands for.
    pub open spec fn rotation(self) -> Option<Rotation> {
        match self {
            Name::Quarter0 => Some(Rotation::_0),
            Name::Quarter1 => Some(Rotation::_90),
            Name::Quarter2 => Some(Rotation::_180),
            Name::Quarter3 => Some(Rotation::_270),
            _ => None,
        }
    }

    /// Every name is found again by its bytes, and has fewer than 32 of them.
    pub proof fn lemma_found(self)
        ensures
            Name::of(self.bytes()) == Some(self),
            0 < self.bytes().len() < 32,
    {
        let b = self.bytes();
        assert(Name::Clip.bytes().len() == 4 && Name::Clip.bytes()[0] == 0x43);
        assert(Name::MirrorHorizontally.bytes().len() == 18 && Name::MirrorHorizontally.bytes()[0]
            == 0x4d);
        assert(Name::MirrorVertically.bytes().len() == 16 && Name::MirrorVertically.bytes()[0]
            == 0x4d);
        assert(Name::Rotate.bytes().len() == 6 && Name::Rotate.bytes()[0] == 0x52);
        assert(Name::Quarter0.bytes().len() == 2);
        assert(Name::Quarter1.bytes().len() == 3);
        assert(Name::Quarter2.bytes().len() == 4 && Name::Quarter2.bytes()[0] == 0x5f);
        assert(Name::Quarter3.bytes().len() == 4 && Name::Quarter3.bytes()[1] == 0x32);
        assert(Name::Quarter2.bytes()[1] == 0x31);
    }

    fn to_vec(self) -> (bytes: Vec<u8>)
        ensures
            bytes@ == self.bytes(),
    {
        let bytes = match self {
            Name::Clip => vec![0x43u8, 0x6c, 0x69, 0x70],
            Name::MirrorHorizontally => vec![
                0x4du8,
                0x69,
                0x72,
                0x72,
                0x6f,
                0x72,
                0x48,
                0x6f,
                0x72,
                0x69,
                0x7a,
                0x6f,
                0x6e,
                0x74,
                0x61,
                0x6c,
                0x6c,
                0x79,
            ],
            Name::MirrorVertically => vec![
                0x4du8,
                0x69,
                0x72,
                0x72,
                0x6f,
                0x72,
                0x56,
                0x65,
                0x72,
                0x74,
                0x69,
                0x63,
                0x61,
                0x6c,
                0x6c,
                0x79,
            ],
            Name::Rotate => vec![0x52u8, 0x6f, 0x74, 0x61, 0x74, 0x65],
            Name::Quarter0 => vec![0x5fu8, 0x30],
            Name::Quarter1 => vec![0x5fu8, 0x39, 0x30],
            Name::Quarter2 => vec![0x5fu8, 0x31, 0x38, 0x30],
            Name::Quarter3 => vec![0x5fu8, 0x32, 0x37, 0x30],
        };
        assert(bytes@ =~= self.bytes());
        bytes
    }
}

/// A number below 2^32 as MessagePack writes it: in as few bytes as it takes.
pub open spec fn uint_bytes(value: nat) -> Seq<u8> {
    if value < 0x80 {
        seq![value as u8]
    } else if value < 0x100 {
        seq![0xccu8, value as u8]
    } else if value < 0x1_0000 {
        seq![0xcdu8, (value / 0x100) as u8, (value % 0x100) as u8]
    } else {
        seq![
            0xceu8,
            (value / 0x100_0000) as u8,
            ((value / 0x1_0000) % 0x100) as u8,
            ((value / 0x100) % 0x100) as u8,
            (value % 0x100) as u8,
        ]
    }
}

/// The header of an array of `count` elements, for a count below 2^32.
pub open spec fn array_header(count: nat) -> Seq<u8> {
    if count < 16 {
        seq![(0x90 + count) as u8]
    } else if count < 0x1_0000 {
        seq![0xdcu8, (count / 0x100) as u8, (count % 0x100) as u8]
    } else {
        seq![
            0xddu8,
            (count / 0x100_0000) as u8,
            ((count / 0x1_0000) % 0x100) as u8,
            ((count / 0x100) % 0x100) as u8,
            (count % 0x100) as u8,
        ]
    }
}

/// A name as a string of MessagePack.
pub open spec fn name_bytes(name: Name) -> Seq<u8> {
    seq![(0xa0 + name.bytes().len()) as u8] + name.bytes()
}

/// One operation as MessagePack.
pub open spec fn operation_bytes(operation: Operation) -> Seq<u8> {
    match operation {
        Operation::Clip(area) => seq![0x81u8] + name_bytes(Name::Clip) + seq![0x94u8] + uint_bytes(
            area.0 as nat,
        ) + uint_bytes(area.1 as nat) + uint_bytes(area.2 as nat) + uint_bytes(area.3 as nat),
        Operation::MirrorHorizontally => name_bytes(Name::MirrorHorizontally),
        Operation::MirrorVertically => name_bytes(Name::MirrorVertically),
        Operation::Rotate(rotation) => seq![0x81u8] + name_bytes(Name::Rotate) + name_bytes(
            Name::of_rotation(rotation),
        ),
    }
}

/// The first `count` operations as MessagePack, one after the other.
pub open spec fn operations_bytes(operations: Seq<Operation>, count: nat) -> Seq<u8>
    decreases count,
{
    if count == 0 {
        Seq::empty()
    } else {
        operations_bytes(operations, (count - 1) as nat) + operation_bytes(operations[count - 1])
    }
}

/// A list of operations as MessagePack.
pub open spec fn message(operations: Seq<Operation>) -> Seq<u8> {
    seq![0x91u8] + array_header(operations.len()) + operations_bytes(
        operations,
        operations.len(),
    )
}

/// Two bytes as a number, the high byte first.
pub open spec fn be16(s: Seq<u8>, at: int) -> int {
    s[at] * 0x100 + s[at + 1]
}

/// Four bytes as a number, the high byte first.
pub open spec fn be32(s: Seq<u8>, at: int) -> int {
    be16(s, at) * 0x1_0000 + be16(s, at + 2)
}

/// Eight bytes as a number, the high byte first.
pub open spec fn be64(s: Seq<u8>, at: int) -> int {
    be32(s, at) * 0x1_0000_0000 + be32(s, at + 4)
}

/// The number that starts at `at`, and where it ends. Numbers with a sign
/// count where they are not negative.
pub open spec fn read_uint(s: Seq<u8>, at: int) -> Option<(int, int)> {
    if at < 0 || at >= s.len() {
        None
    } else if s[at] < 0x80 {
        Some((s[at] as int, at + 1))
    } else if s[at] == 0xcc && at + 2 <= s.len() {
        Some((s[at + 1] as int, at + 2))
    } else if s[at] == 0xcd && at + 3 <= s.len() {
        Some((be16(s, at + 1), at + 3))
    } else if s[at] == 0xce && at + 5 <= s.len() {
        Some((be32(s, at + 1), at + 5))
    } else if s[at] == 0xcf && at + 9 <= s.len() {
        Some((be64(s, at + 1), at + 9))
    } else if s[at] == 0xd0 && at + 2 <= s.len() && s[at + 1] < 0x80 {
        Some((s[at + 1] as int, at + 2))
    } else if s[at] == 0xd1 && at + 3 <= s.len() && s[at + 1] < 0x80 {
        Some((be16(s, at + 1), at + 3))
    } else if s[at] == 0xd2 && at + 5 <= s.len() && s[at + 1] < 0x80 {
        Some((be32(s, at + 1), at + 5))
    } else if s[at] == 0xd3 && at + 9 <= s.len() && s[at + 1] < 0x80 {
        Some((be64(s, at + 1), at + 9))
    } else {
        None
    }
}

/// The number of 32 bits that starts at `at`, and where it ends.
pub open spec fn read_u32(s: Seq<u8>, at: int) -> Option<(u32, int)> {
    match read_uint(s, at) {
        Some((value, next)) => if value <= u32::MAX {
            Some((value as u32, next))
        } else {
            None
        },
        None => None,
    }
}

/// The string that starts at `at`: where its bytes start and where they end.
pub open spec fn read_str(s: Seq<u8>, at: int) -> Option<(int, int)> {
    if at < 0 || at >= s.len() {
        None
    } else {
        let span = if 0xa0 <= s[at] <= 0xbf {
            Some((at + 1, s[at] - 0xa0))
        } else if s[at] == 0xd9 && at + 2 <= s.len() {
            Some((at + 2, s[at + 1] as int))
        } else if s[at] == 0xda && at + 3 <= s.len() {
            Some((at + 3, be16(s, at + 1)))
        } else if s[at] == 0xdb && at + 5 <= s.len() {
            Some((at + 5, be32(s, at + 1)))
        } else {
            None
        };
        match span {
            Some((start, len)) => if start + len <= s.len() {
                Some((start, start + len))
            } else {
                None
            },
            None => None,
        }
    }
}

/// The number of elements of the array that starts at `at`, and where its
/// first element starts.
pub open spec fn read_array_len(s: Seq<u8>, at: int) -> Option<(int, int)> {
    if at < 0 || at >= s.len() {
        None
    } else if 0x90 <= s[at] <= 0x9f {
        Some((s[at] - 0x90, at + 1))
    } else if s[at] == 0xdc && at + 3 <= s.len() {
        Some((be16(s, at + 1), at + 3))
    } else if s[at] == 0xdd && at + 5 <= s.len() {
        Some((be32(s, at + 1), at + 5))
    } else {
        None
    }
}

/// Where the value that starts at `at` ends without the values that it holds,
/// and how many values it holds: as many as it has elements for an array, and
/// twice as many as it has entries for a map.
pub open spec fn value_shape(s: Seq<u8>, at: int) -> Option<(int, int)> {
    if at < 0 || at >= s.len() {
        None
    } else {
        let m = s[at];
        let shape = if m < 0x80 || m >= 0xe0 || m == 0xc0 || m == 0xc2 || m == 0xc3 {
            Some((at + 1, 0int))
        } else if m <= 0x8f {
            Some((at + 1, 2 * (m - 0x80)))
        } else if m <= 0x9f {
            Some((at + 1, m - 0x90))
        } else if m <= 0xbf {
            Some((at + 1 + (m - 0xa0), 0int))
        } else if m == 0xcc || m == 0xd0 {
            Some((at + 2, 0int))
        } else if m == 0xcd || m == 0xd1 {
            Some((at + 3, 0int))
        } else if m == 0xce || m == 0xd2 || m == 0xca {
            Some((at + 5, 0int))
        } else if m == 0xcf || m == 0xd3 || m == 0xcb {
            Some((at + 9, 0int))
        } else if m == 0xd4 {
            Some((at + 3, 0int))
        } else if m == 0xd5 {
            Some((at + 4, 0int))
        } else if m == 0xd6 {
            Some((at + 6, 0int))
        } else if m == 0xd7 {
            Some((at + 10, 0int))
        } else if m == 0xd8 {
            Some((at + 18, 0int))
        } else if (m == 0xd9 || m == 0xc4) && at + 2 <= s.len() {
            Some((at + 2 + s[at + 1], 0int))
        } else if (m == 0xda || m == 0xc5) && at + 3 <= s.len() {
            Some((at + 3 + be16(s, at + 1), 0int))
        } else if (m == 0xdb || m == 0xc6) && at + 5 <= s.len() {
            Some((at + 5 + be32(s, at + 1), 0int))
        } else if m == 0xc7 && at + 2 <= s.len() {
            Some((at + 3 + s[at + 1], 0int))
        } else if m == 0xc8 && at + 3 <= s.len() {
            Some((at + 4 + be16(s, at + 1), 0int))
        } else if m == 0xc9 && at + 5 <= s.len() {
            Some((at + 6 + be32(s, at + 1), 0int))
        } else if m == 0xdc && at + 3 <= s.len() {
            Some((at + 3, be16(s, at + 1)))
        } else if m == 0xdd && at + 5 <= s.len() {
            Some((at + 5, be32(s, at + 1)))
        } else if m == 0xde && at + 3 <= s.len() {
            Some((at + 3, 2 * be16(s, at + 1)))
        } else if m == 0xdf && at + 5 <= s.len() {
            Some((at + 5, 2 * be32(s, at + 1)))
        } else {
            None
        };
        match shape {
            Some((next, held)) => if next <= s.len() {
                Some((next, held))
            } else {
                None
            },
            None => None,
        }
    }
}

/// Where `pending` values that follow each other from `at` on end.
pub open spec fn skip_values(s: Seq<u8>, at: int, pending: int) -> Option<int>
    decreases s.len() - at,
{
    if pending <= 0 {
        Some(at)
    } else {
        match value_shape(s, at) {
            Some((next, held)) => if at < next <= s.len() {
                skip_values(s, next, pending - 1 + held)
            } else {
                None
            },
            None => None,
        }
    }
}

/// An operation as it is read: one that is known, or the name of another.
pub enum Item {
    Known(Operation),
    Unknown(Seq<u8>),
}

/// The area that starts at `at`: an array of four numbers of 32 bits.
pub open spec fn read_area(s: Seq<u8>, at: int) -> Option<((u32, u32, u32, u32), int)> {
    match read_array_len(s, at) {
        Some((count, first)) => if count == 4 {
            match read_u32(s, first) {
                Some((x, second)) => match read_u32(s, second) {
                    Some((y, third)) => match read_u32(s, third) {
                        Some((width, fourth)) => match read_u32(s, fourth) {
                            Some((height, next)) => Some(((x, y, width, height), next)),
                            None => None,
                        },
                        None => None,
                    },
                    None => None,
                },
                None => None,
            }
        } else {
            None
        },
        None => None,
    }
}

/// The rotation that starts at `at`: its name as a string.
pub open spec fn read_rotation(s: Seq<u8>, at: int) -> Option<(Rotation, int)> {
    match read_str(s, at) {
        Some((start, end)) => match Name::of(s.subrange(start, end)) {
            Some(name) => match name.rotation() {
                Some(rotation) => Some((rotation, end)),
                None => None,
            },
            None => None,
        },
        None => None,
    }
}

/// The operation that the value at `at` stands for under the name `name`, if
/// the name is known and the value has its form.
pub open spec fn read_value(s: Seq<u8>, name: Seq<u8>, at: int) -> Option<(Operation, int)> {
    match Name::of(name) {
        Some(Name::Clip) => match read_area(s, at) {
            Some((area, next)) => Some((Operation::Clip(area), next)),
            None => None,
        },
        Some(Name::Rotate) => match read_rotation(s, at) {
            Some((rotation, next)) => Some((Operation::Rotate(rotation), next)),
            None => None,
        },
        _ => None,
    }
}

/// The operation that starts at `at`, and where it ends.
///
/// A string is an operation without a value, and a map with one entry is an
/// operation with a value. What is not known in this form is kept by its
/// name, and its value is passed over.
pub open spec fn read_item(s: Seq<u8>, at: int) -> Option<(Item, int)> {
    if at < 0 || at >= s.len() {
        None
    } else if s[at] == 0x81 {
        match read_str(s, at + 1) {
            Some((start, end)) => {
                let name = s.subrange(start, end);
                match read_value(s, name, end) {
                    Some((operation, next)) => Some((Item::Known(operation), next)),
                    None => match skip_values(s, end, 1) {
                        Some(next) => Some((Item::Unknown(name), next)),
                        None => None,
                    },
                }
            },
            None => None,
        }
    } else {
        match read_str(s, at) {
            Some((start, end)) => {
                let name = s.subrange(start, end);
                match Name::of(name) {
                    Some(Name::MirrorHorizontally) => Some(
                        (Item::Known(Operation::MirrorHorizontally), end),
                    ),
                    Some(Name::MirrorVertically) => Some(
                        (Item::Known(Operation::MirrorVertically), end),
                    ),
                    _ => Some((Item::Unknown(name), end)),
                }
            },
            None => None,
        }
    }
}

/// The `count` operations that follow each other from `at` on.
pub open spec fn read_items(s: Seq<u8>, at: int, count: nat) -> Option<Seq<Item>>
    decreases count,
{
    if count == 0 {
        Some(Seq::empty())
    } else {
        match read_item(s, at) {
            Some((item, next)) => match read_items(s, next, (count - 1) as nat) {
                Some(rest) => Some(seq![item] + rest),
                None => None,
            },
            None => None,
        }
    }
}

/// The operations of a message: an array of one element, which is the array
/// of the operations. What follows the array is not looked at.
pub open spec fn read_message(s: Seq<u8>) -> Option<Seq<Item>> {
    match read_array_len(s, 0) {
        Some((fields, inner)) => if fields == 1 {
            match read_array_len(s, inner) {
                Some((count, first)) => read_items(s, first, count as nat),
                None => None,
            }
        } else {
            None
        },
        None => None,
    }
}

/// The known operations among the items, in their order.
pub open spec fn known(items: Seq<Item>) -> Seq<Operation>
    decreases items.len(),
{
    if items.len() == 0 {
        Seq::empty()
    } else {
        match items.last() {
            Item::Known(operation) => known(items.drop_last()).push(operation),
            Item::Unknown(_) => known(items.drop_last()),
        }
    }
}

/// The names of the unknown operations among the items, in their order.
pub open spec fn unknown(items: Seq<Item>) -> Seq<Seq<u8>>
    decreases items.len(),
{
    if items.len() == 0 {
        Seq::empty()
    } else {
        match items.last() {
            Item::Known(_) => unknown(items.drop_last()),
            Item::Unknown(name) => unknown(items.drop_last()).push(name),
        }
    }
}

/// Whether `part` stands in `s` at the position `at`.
pub open spec fn occurs(s: Seq<u8>, at: int, part: Seq<u8>) -> bool {
    &&& 0 <= at
    &&& at + part.len() <= s.len()
    &&& forall|i: int| 0 <= i < part.len() ==> s[at + i] == part[i]
}

/// Where two parts stand one after the other, each of them stands.
pub proof fn lemma_occurs_split(s: Seq<u8>, at: int, first: Seq<u8>, second: Seq<u8>)
    requires
        occurs(s, at, first + second),
    ensures
        occurs(s, at, first),
        occurs(s, at + first.len(), second),
{
    let both = first + second;
    assert forall|i: int| 0 <= i < first.len() implies s[at + i] == first[i] by {
        assert(both[i] == first[i]);
    }
    assert forall|i: int| 0 <= i < second.len() implies s[at + first.len() + i] == second[i] by {
        assert(both[first.len() + i] == second[i]);
    }
}

/// A number that was written is read as it was.
pub proof fn lemma_read_uint(s: Seq<u8>, at: int, value: u32)
    requires
        occurs(s, at, uint_bytes(value as nat)),
    ensures
        read_u32(s, at) == Some((value, at + uint_bytes(value as nat).len())),
{
    let bytes = uint_bytes(value as nat);
    assert(s[at] == bytes[0]);
    if value < 0x80 {
    } else if value < 0x100 {
        assert(s[at + 1] == bytes[1]);
    } else if value < 0x1_0000 {
        assert(s[at + 1] == bytes[1]);
        assert(s[at + 2] == bytes[2]);
    } else {
        assert(s[at + 1] == bytes[1]);
        assert(s[at + 2] == bytes[2]);
        assert(s[at + 3] == bytes[3]);
        assert(s[at + 4] == bytes[4]);
    }
}

/// The header of an array that was written is read as it was.
pub proof fn lemma_read_array_header(s: Seq<u8>, at: int, count: nat)
    requires
        count <= u32::MAX,
        occurs(s, at, array_header(count)),
    ensures
        read_array_len(s, at) == Some((count as int, at + array_header(count).len())),
{
    let bytes = array_header(count);
    assert(s[at] == bytes[0]);
    if count < 16 {
    } else if count < 0x1_0000 {
        assert(s[at + 1] == bytes[1]);
        assert(s[at + 2] == bytes[2]);
    } else {
        assert(s[at + 1] == bytes[1]);
        assert(s[at + 2] == bytes[2]);
        assert(s[at + 3] == bytes[3]);
        assert(s[at + 4] == bytes[4]);
    }
}

/// A name that was written is read as it was.
pub proof fn lemma_read_name(s: Seq<u8>, at: int, name: Name)
    requires
        occurs(s, at, name_bytes(name)),
    ensures
        read_str(s, at) == Some((at + 1, at + 1 + name.bytes().len())),
        s.subrange(at + 1, at + 1 + name.bytes().len()) == name.bytes(),
        Name::of(s.subrange(at + 1, at + 1 + name.bytes().len())) == Some(name),
        name_bytes(name).len() == 1 + name.bytes().len(),
{
    name.lemma_found();
    let bytes = name_bytes(name);
    let head = seq![(0xa0 + name.bytes().len()) as u8];
    lemma_occurs_split(s, at, head, name.bytes());
    assert(s[at] == head[0]);
    assert(s.subrange(at + 1, at + 1 + name.bytes().len()) =~= name.bytes());
}

/// A clip that was written is read as it was.
#[verifier::rlimit(50)]
proof fn lemma_read_clip(s: Seq<u8>, at: int, area: (u32, u32, u32, u32))
    requires
        occurs(s, at, operation_bytes(Operation::Clip(area))),
    ensures
        read_item(s, at) == Some(
            (Item::Known(Operation::Clip(area)), at + operation_bytes(Operation::Clip(area)).len()),
        ),
        operation_bytes(Operation::Clip(area)).len() > 0,
{
    let marker = seq![0x81u8];
    let key = name_bytes(Name::Clip);
    let four = seq![0x94u8];
    let x = uint_bytes(area.0 as nat);
    let y = uint_bytes(area.1 as nat);
    let w = uint_bytes(area.2 as nat);
    let h = uint_bytes(area.3 as nat);
    assert(operation_bytes(Operation::Clip(area)) == (((((marker + key) + four) + x) + y) + w) + h);
    lemma_occurs_split(s, at, ((((marker + key) + four) + x) + y) + w, h);
    lemma_occurs_split(s, at, (((marker + key) + four) + x) + y, w);
    lemma_occurs_split(s, at, ((marker + key) + four) + x, y);
    lemma_occurs_split(s, at, (marker + key) + four, x);
    lemma_occurs_split(s, at, marker + key, four);
    lemma_occurs_split(s, at, marker, key);
    assert(s[at] == marker[0]);
    lemma_read_name(s, at + 1, Name::Clip);
    Name::Clip.lemma_found();
    let p0 = at + 1 + key.len();
    assert(s[p0] == four[0]);
    assert(read_array_len(s, p0) == Some((4int, p0 + 1)));
    let p1 = p0 + 1;
    lemma_read_uint(s, p1, area.0);
    let p2 = p1 + x.len();
    lemma_read_uint(s, p2, area.1);
    let p3 = p2 + y.len();
    lemma_read_uint(s, p3, area.2);
    let p4 = p3 + w.len();
    lemma_read_uint(s, p4, area.3);
    assert(read_area(s, p0) == Some((area, p4 + h.len())));
    assert(read_str(s, at + 1) == Some((at + 2, p0)));
    assert(read_value(s, s.subrange(at + 2, p0), p0) == Some(
        (Operation::Clip(area), p4 + h.len()),
    ));
}

/// A rotation that was written is read as it was.
#[verifier::rlimit(50)]
proof fn lemma_read_rotate(s: Seq<u8>, at: int, rotation: Rotation)
    requires
        occurs(s, at, operation_bytes(Operation::Rotate(rotation))),
    ensures
        read_item(s, at) == Some(
            (
                Item::Known(Operation::Rotate(rotation)),
                at + operation_bytes(Operation::Rotate(rotation)).len(),
            ),
        ),
        operation_bytes(Operation::Rotate(rotation)).len() > 0,
{
    let marker = seq![0x81u8];
    let key = name_bytes(Name::Rotate);
    let value = name_bytes(Name::of_rotation(rotation));
    assert(operation_bytes(Operation::Rotate(rotation)) == (marker + key) + value);
    lemma_occurs_split(s, at, marker + key, value);
    lemma_occurs_split(s, at, marker, key);
    assert(s[at] == marker[0]);
    lemma_read_name(s, at + 1, Name::Rotate);
    let end = at + 1 + key.len();
    lemma_read_name(s, end, Name::of_rotation(rotation));
    Name::Rotate.lemma_found();
    assert(read_str(s, at + 1) == Some((at + 2, end)));
    assert(read_rotation(s, end) == Some((rotation, end + value.len())));
    assert(read_value(s, s.subrange(at + 2, end), end) == Some(
        (Operation::Rotate(rotation), end + value.len()),
    ));
}

/// An operation that was written is read as it was.
pub proof fn lemma_read_operation(s: Seq<u8>, at: int, operation: Operation)
    requires
        occurs(s, at, operation_bytes(operation)),
    ensures
        read_item(s, at) == Some((Item::Known(operation), at + operation_bytes(operation).len())),
        operation_bytes(operation).len() > 0,
{
    match operation {
        Operation::MirrorHorizontally => {
            lemma_read_name(s, at, Name::MirrorHorizontally);
            assert(s[at] == name_bytes(Name::MirrorHorizontally)[0]);
        },
        Operation::MirrorVertically => {
            lemma_read_name(s, at, Name::MirrorVertically);
            assert(s[at] == name_bytes(Name::MirrorVertically)[0]);
        },
        Operation::Rotate(rotation) => {
            lemma_read_rotate(s, at, rotation);
        },
        Operation::Clip(area) => {
            lemma_read_clip(s, at, area);
        },
    }
}

/// Items are read one after the other: the first, and then the rest.
proof fn lemma_read_first(s: Seq<u8>, at: int, count: nat, item: Item, next: int, rest: Seq<Item>)
    requires
        count > 0,
        read_item(s, at) == Some((item, next)),
        read_items(s, next, (count - 1) as nat) == Some(rest),
    ensures
        read_items(s, at, count) == Some(seq![item] + rest),
{
}

/// The operations that were written one after the other are read as they
/// were.
#[verifier::rlimit(100)]
pub proof fn lemma_read_operations(
    s: Seq<u8>,
    at: int,
    operations: Seq<Operation>,
    from: nat,
    to: nat,
)
    requires
        from <= to <= operations.len(),
        occurs(s, at, operations_bytes(operations, to)),
    ensures
        read_items(
            s,
            at + operations_bytes(operations, from).len(),
            (to - from) as nat,
        ) matches Some(items) && items.len() == to - from && (forall|i: int|
            0 <= i < items.len() ==> items[i] == Item::Known(operations[from + i])),
    decreases to - from,
{
    if from < to {
        lemma_prefix_occurs(s, at, operations, from + 1, to);
        let before = operations_bytes(operations, from);
        let this = operation_bytes(operations[from as int]);
        assert(operations_bytes(operations, from + 1) == before + this);
        lemma_occurs_split(s, at, before, this);
        lemma_read_operation(s, at + before.len(), operations[from as int]);
        lemma_read_operations(s, at, operations, from + 1, to);
        let next = at + before.len() + this.len();
        assert(next == at + operations_bytes(operations, from + 1).len());
        let rest = read_items(s, next, (to - from - 1) as nat)->0;
        let items = seq![Item::Known(operations[from as int])] + rest;
        lemma_read_first(
            s,
            at + before.len(),
            (to - from) as nat,
            Item::Known(operations[from as int]),
            next,
            rest,
        );
        assert forall|i: int| 0 <= i < items.len() implies items[i] == Item::Known(
            operations[from + i],
        ) by {
            if i > 0 {
                assert(items[i] == rest[i - 1]);
            }
        }
    }
}

/// Where the first `to` operations stand, the first `upto` of them stand.
proof fn lemma_prefix_occurs(s: Seq<u8>, at: int, operations: Seq<Operation>, upto: nat, to: nat)
    requires
        upto <= to <= operations.len(),
        occurs(s, at, operations_bytes(operations, to)),
    ensures
        occurs(s, at, operations_bytes(operations, upto)),
    decreases to - upto,
{
    if upto < to {
        let shorter = operations_bytes(operations, (to - 1) as nat);
        lemma_occurs_split(s, at, shorter, operation_bytes(operations[to - 1]));
        lemma_prefix_occurs(s, at, operations, upto, (to - 1) as nat);
    }
}

/// Items that are all known are the operations that they hold.
proof fn lemma_all_known(items: Seq<Item>, operations: Seq<Operation>)
    requires
        items.len() == operations.len(),
        forall|i: int| 0 <= i < items.len() ==> items[i] == Item::Known(operations[i]),
    ensures
        known(items) == operations,
        unknown(items) == Seq::<Seq<u8>>::empty(),
    decreases items.len(),
{
    if items.len() > 0 {
        lemma_all_known(items.drop_last(), operations.drop_last());
        assert(items.last() == Item::Known(operations.last()));
        assert(operations.drop_last().push(operations.last()) =~= operations);
    } else {
        assert(operations =~= Seq::<Operation>::empty());
    }
}

/// A list of operations that is written and read again is the same list, and
/// no operation of it is unknown.
pub proof fn lemma_round_trip(operations: Seq<Operation>)
    requires
        operations.len() <= u32::MAX,
    ensures
        read_message(message(operations)) matches Some(items) && known(items) == operations
            && unknown(items) == Seq::<Seq<u8>>::empty(),
{
    let s = message(operations);
    let outer = seq![0x91u8];
    let header = array_header(operations.len());
    let body = operations_bytes(operations, operations.len());
    assert(s == (outer + header) + body);
    assert(occurs(s, 0, s));
    lemma_occurs_split(s, 0, outer + header, body);
    lemma_occurs_split(s, 0, outer, header);
    assert(s[0] == outer[0]);
    lemma_read_array_header(s, 1, operations.len());
    let first: int = (1 + header.len()) as int;
    assert(operations_bytes(operations, 0).len() == 0);
    lemma_read_operations(s, first, operations, 0, operations.len());
    let items = read_items(s, first, operations.len())->0;
    lemma_all_known(items, operations);
}

/// Whether a name can stand for an operation without a value that is not
/// known: it is no longer than a string of MessagePack can be, and it is not
/// the name of one of the two known operations without a value.
pub open spec fn unknown_unit(name: Seq<u8>) -> bool {
    &&& name.len() <= u32::MAX
    &&& Name::of(name) != Some(Name::MirrorHorizontally)
    &&& Name::of(name) != Some(Name::MirrorVertically)
}

/// The header of a string of `len` bytes, for a length below 2^32: in as few
/// bytes as it takes.
pub open spec fn str_header(len: nat) -> Seq<u8> {
    if len < 32 {
        seq![(0xa0 + len) as u8]
    } else if len < 0x100 {
        seq![0xd9u8, len as u8]
    } else if len < 0x1_0000 {
        seq![0xdau8, (len / 0x100) as u8, (len % 0x100) as u8]
    } else {
        seq![
            0xdbu8,
            (len / 0x100_0000) as u8,
            ((len / 0x1_0000) % 0x100) as u8,
            ((len / 0x100) % 0x100) as u8,
            (len % 0x100) as u8,
        ]
    }
}

/// An operation without a value as MessagePack: its name as a string.
pub open spec fn unit_bytes(name: Seq<u8>) -> Seq<u8> {
    str_header(name.len()) + name
}

/// One item as MessagePack: a known operation, or the name of another.
pub open spec fn item_bytes(item: Item) -> Seq<u8> {
    match item {
        Item::Known(operation) => operation_bytes(operation),
        Item::Unknown(name) => unit_bytes(name),
    }
}

/// The first `count` items as MessagePack, one after the other.
pub open spec fn items_bytes(items: Seq<Item>, count: nat) -> Seq<u8>
    decreases count,
{
    if count == 0 {
        Seq::empty()
    } else {
        items_bytes(items, (count - 1) as nat) + item_bytes(items[count - 1])
    }
}

/// A list of items as MessagePack: the message of a sender that knows more
/// operations than this version does.
pub open spec fn message_of_items(items: Seq<Item>) -> Seq<u8> {
    seq![0x91u8] + array_header(items.len()) + items_bytes(items, items.len())
}

/// Whether every name among the items can stand for an unknown operation
/// without a value.
pub open spec fn names_are_unknown(items: Seq<Item>) -> bool {
    forall|i: int|
        0 <= i < items.len() ==> match #[trigger] items[i] {
            Item::Known(_) => true,
            Item::Unknown(name) => unknown_unit(name),
        }
}

/// The name of an unknown operation that was written is read as it was.
proof fn lemma_read_unit(s: Seq<u8>, at: int, name: Seq<u8>)
    requires
        unknown_unit(name),
        occurs(s, at, unit_bytes(name)),
    ensures
        read_item(s, at) == Some((Item::Unknown(name), at + unit_bytes(name).len())),
        unit_bytes(name).len() > 0,
{
    let head = str_header(name.len());
    let len = name.len() as int;
    lemma_occurs_split(s, at, head, name);
    assert(s[at] == head[0]);
    if len < 32 {
    } else if len < 0x100 {
        assert(s[at + 1] == head[1]);
    } else if len < 0x1_0000 {
        assert(s[at + 1] == head[1]);
        assert(s[at + 2] == head[2]);
        assert(be16(s, at + 1) == len);
    } else {
        assert(s[at + 1] == head[1]);
        assert(s[at + 2] == head[2]);
        assert(s[at + 3] == head[3]);
        assert(s[at + 4] == head[4]);
        assert(be32(s, at + 1) == len);
    }
    let start = at + head.len();
    assert(s.subrange(start, start + len) =~= name);
    assert(read_str(s, at) == Some((start, start + len)));
}

/// An item that was written is read as it was.
proof fn lemma_read_written_item(s: Seq<u8>, at: int, item: Item)
    requires
        occurs(s, at, item_bytes(item)),
        item matches Item::Unknown(name) ==> unknown_unit(name),
    ensures
        read_item(s, at) == Some((item, at + item_bytes(item).len())),
        item_bytes(item).len() > 0,
{
    match item {
        Item::Known(operation) => {
            lemma_read_operation(s, at, operation);
        },
        Item::Unknown(name) => {
            lemma_read_unit(s, at, name);
        },
    }
}

/// Where the first `to` items stand, the first `upto` of them stand.
proof fn lemma_items_prefix_occurs(s: Seq<u8>, at: int, items: Seq<Item>, upto: nat, to: nat)
    requires
        upto <= to <= items.len(),
        occurs(s, at, items_bytes(items, to)),
    ensures
        occurs(s, at, items_bytes(items, upto)),
    decreases to - upto,
{
    if upto < to {
        let shorter = items_bytes(items, (to - 1) as nat);
        lemma_occurs_split(s, at, shorter, item_bytes(items[to - 1]));
        lemma_items_prefix_occurs(s, at, items, upto, (to - 1) as nat);
    }
}

/// The items that were written one after the other are read as they were.
#[verifier::rlimit(100)]
proof fn lemma_read_written_items(s: Seq<u8>, at: int, items: Seq<Item>, from: nat, to: nat)
    requires
        from <= to <= items.len(),
        names_are_unknown(items),
        occurs(s, at, items_bytes(items, to)),
    ensures
        read_items(s, at + items_bytes(items, from).len(), (to - from) as nat) == Some(
            items.subrange(from as int, to as int),
        ),
    decreases to - from,
{
    if from < to {
        lemma_items_prefix_occurs(s, at, items, from + 1, to);
        let before = items_bytes(items, from);
        let this = item_bytes(items[from as int]);
        assert(items_bytes(items, from + 1) == before + this);
        lemma_occurs_split(s, at, before, this);
        lemma_read_written_item(s, at + before.len(), items[from as int]);
        lemma_read_written_items(s, at, items, from + 1, to);
        let next = at + before.len() + this.len();
        assert(next == at + items_bytes(items, from + 1).len());
        let rest = items.subrange((from + 1) as int, to as int);
        lemma_read_first(s, at + before.len(), (to - from) as nat, items[from as int], next, rest);
        assert(seq![items[from as int]] + rest =~= items.subrange(from as int, to as int));
    } else {
        assert(items.subrange(from as int, to as int) =~= Seq::<Item>::empty());
    }
}

/// A message that holds known operations and names of unknown operations
/// without a value, of any length that a string can have, is read item by
/// item as it was written: no item is lost, the known operations keep their
/// order, and each unknown name is kept.
pub proof fn lemma_round_trip_with_unknown(items: Seq<Item>)
    requires
        items.len() <= u32::MAX,
        names_are_unknown(items),
    ensures
        read_message(message_of_items(items)) == Some(items),
        known(items).len() + unknown(items).len() == items.len(),
{
    let s = message_of_items(items);
    let outer = seq![0x91u8];
    let header = array_header(items.len());
    let body = items_bytes(items, items.len());
    assert(s == (outer + header) + body);
    assert(occurs(s, 0, s));
    lemma_occurs_split(s, 0, outer + header, body);
    lemma_occurs_split(s, 0, outer, header);
    assert(s[0] == outer[0]);
    lemma_read_array_header(s, 1, items.len());
    let first: int = (1 + header.len()) as int;
    assert(items_bytes(items, 0).len() == 0);
    lemma_read_written_items(s, first, items, 0, items.len());
    assert(items.subrange(0, items.len() as int) =~= items);
    lemma_item_counts(items);
}

/// Every item is a known operation or an unknown name.
pub proof fn lemma_item_counts(items: Seq<Item>)
    ensures
        known(items).len() + unknown(items).len() == items.len(),
    decreases items.len(),
{
    if items.len() > 0 {
        lemma_item_counts(items.drop_last());
    }
}

/// Why a list of operations cannot be written.
#[derive(Debug, Clone, Copy, PartialEq, Eq, Structural)]
pub enum EncodeError {
    /// The list has more operations than an array can hold
    TooManyOperations,
}

/// Why bytes cannot be read as a list of operations.
#[derive(Debug, Clone, Copy, PartialEq, Eq, Structural)]
pub enum DecodeError {
    /// The bytes are no list of operations in MessagePack
    Malformed,
}

fn push_uint(out: &mut Vec<u8>, value: u32)
    ensures
        final(out)@ == old(out)@ + uint_bytes(value as nat),
{
    if value < 0x80 {
        out.push(value as u8);
    } else if value < 0x100 {
        out.push(0xcc);
        out.push(value as u8);
    } else if value < 0x1_0000 {
        out.push(0xcd);
        out.push((value / 0x100) as u8);
        out.push((value % 0x100) as u8);
    } else {
        out.push(0xce);
        out.push((value / 0x100_0000) as u8);
        out.push(((value / 0x1_0000) % 0x100) as u8);
        out.push(((value / 0x100) % 0x100) as u8);
        out.push((value % 0x100) as u8);
    }
    assert(out@ =~= old(out)@ + uint_bytes(value as nat));
}

fn push_array_header(out: &mut Vec<u8>, count: u32)
    ensures
        final(out)@ == old(out)@ + array_header(count as nat),
{
    if count < 16 {
        out.push((0x90 + count) as u8);
    } else if count < 0x1_0000 {
        out.push(0xdc);
        out.push((count / 0x100) as u8);
        out.push((count % 0x100) as u8);
    } else {
        out.push(0xdd);
        out.push((count / 0x100_0000) as u8);
        out.push(((count / 0x1_0000) % 0x100) as u8);
        out.push(((count / 0x100) % 0x100) as u8);
        out.push((count % 0x100) as u8);
    }
    assert(out@ =~= old(out)@ + array_header(count as nat));
}

fn push_name(out: &mut Vec<u8>, name: Name)
    ensures
        final(out)@ == old(out)@ + name_bytes(name),
{
    proof {
        name.lemma_found();
    }
    let bytes = name.to_vec();
    out.push((0xa0 + bytes.len()) as u8);
    let mut i: usize = 0;
    while i < bytes.len()
        invariant
            i <= bytes@.len(),
            bytes@ == name.bytes(),
            out@ == old(out)@ + seq![(0xa0 + name.bytes().len()) as u8] + bytes@.subrange(
                0,
                i as int,
            ),
        decreases bytes@.len() - i,
    {
        out.push(bytes[i]);
        assert(bytes@.subrange(0, i + 1) =~= bytes@.subrange(0, i as int).push(bytes@[i as int]));
        i += 1;
    }
    assert(bytes@.subrange(0, i as int) =~= bytes@);
    assert(out@ =~= old(out)@ + name_bytes(name));
}

fn push_operation(out: &mut Vec<u8>, operation: &Operation)
    ensures
        final(out)@ == old(out)@ + operation_bytes(*operation),
{
    match operation {
        Operation::Clip(area) => {
            out.push(0x81);
            push_name(out, Name::Clip);
            out.push(0x94);
            push_uint(out, area.0);
            push_uint(out, area.1);
            push_uint(out, area.2);
            push_uint(out, area.3);
        },
        Operation::MirrorHorizontally => {
            push_name(out, Name::MirrorHorizontally);
        },
        Operation::MirrorVertically => {
            push_name(out, Name::MirrorVertically);
        },
        Operation::Rotate(rotation) => {
            out.push(0x81);
            push_name(out, Name::Rotate);
            let name = match rotation {
                Rotation::_0 => Name::Quarter0,
                Rotation::_90 => Name::Quarter1,
                Rotation::_180 => Name::Quarter2,
                Rotation::_270 => Name::Quarter3,
            };
            push_name(out, name);
        },
    }
    assert(out@ =~= old(out)@ + operation_bytes(*operation));
}

/// Writes a list of operations as MessagePack.
pub fn to_message_pack(operations: &Operations) -> (res: Result<Vec<u8>, EncodeError>)
    ensures
        match res {
            Ok(bytes) => operations@.len() <= u32::MAX && bytes@ == message(operations@),
            Err(e) => operations@.len() > u32::MAX && e == EncodeError::TooManyOperations,
        },
{
    let list = operations.operations();
    if list.len() > u32::MAX as usize {
        return Err(EncodeError::TooManyOperations);
    }
    let mut out: Vec<u8> = Vec::new();
    out.push(0x91);
    push_array_header(&mut out, list.len() as u32);
    let ghost head = out@;
    let mut i: usize = 0;
    while i < list.len()
        invariant
            i <= list@.len(),
            out@ == head + operations_bytes(list@, i as nat),
        decreases list@.len() - i,
    {
        push_operation(&mut out, &list[i]);
        assert(out@ =~= head + operations_bytes(list@, i as nat + 1));
        i += 1;
    }
    assert(out@ =~= message(operations@));
    Ok(out)
}

/// The text that bytes stand for, with a replacement character for each part
/// that is no UTF-8.
pub uninterp spec fn lossy_text(bytes: Seq<u8>) -> Seq<char>;

/// Calls `String::from_utf8_lossy`: the text of the bytes, in which the parts
/// that are no UTF-8 are replaced. The result depends on the bytes alone.
#[verifier::external_body]
fn text_of_bytes(bytes: &[u8]) -> (text: String)
    ensures
        text@ == lossy_text(bytes@),
{
    String::from_utf8_lossy(bytes).into_owned()
}

/// The texts of the names.
pub open spec fn lossy_texts(names: Seq<Seq<u8>>) -> Seq<Seq<char>> {
    Seq::new(names.len(), |i: int| lossy_text(names[i]))
}

fn get16(bytes: &[u8], at: usize) -> (value: u64)
    requires
        at + 2 <= bytes@.len(),
    ensures
        value == be16(bytes@, at as int),
        value < 0x1_0000,
{
    (bytes[at] as u64) * 0x100 + (bytes[at + 1] as u64)
}

fn get32(bytes: &[u8], at: usize) -> (value: u64)
    requires
        at + 4 <= bytes@.len(),
    ensures
        value == be32(bytes@, at as int),
        value < 0x1_0000_0000,
{
    let len = bytes.len();
    get16(bytes, at) * 0x1_0000 + get16(bytes, at + 2)
}

fn get64(bytes: &[u8], at: usize) -> (value: u64)
    requires
        at + 8 <= bytes@.len(),
    ensures
        value == be64(bytes@, at as int),
{
    let len = bytes.len();
    get32(bytes, at) * 0x1_0000_0000 + get32(bytes, at + 4)
}

fn get_uint(bytes: &[u8], at: usize) -> (res: Option<(u64, usize)>)
    ensures
        match res {
            Some((value, next)) => read_uint(bytes@, at as int) == Some((value as int, next as int))
                && at < next <= bytes@.len(),
            None => read_uint(bytes@, at as int) is None,
        },
{
    let len = bytes.len();
    if at >= len {
        return None;
    }
    let left = len - at;
    let m = bytes[at];
    if m < 0x80 {
        Some((m as u64, at + 1))
    } else if m == 0xcc && left >= 2 {
        Some((bytes[at + 1] as u64, at + 2))
    } else if m == 0xcd && left >= 3 {
        Some((get16(bytes, at + 1), at + 3))
    } else if m == 0xce && left >= 5 {
        Some((get32(bytes, at + 1), at + 5))
    } else if m == 0xcf && left >= 9 {
        Some((get64(bytes, at + 1), at + 9))
    } else if m == 0xd0 && left >= 2 && bytes[at + 1] < 0x80 {
        Some((bytes[at + 1] as u64, at + 2))
    } else if m == 0xd1 && left >= 3 && bytes[at + 1] < 0x80 {
        Some((get16(bytes, at + 1), at + 3))
    } else if m == 0xd2 && left >= 5 && bytes[at + 1] < 0x80 {
        Some((get32(bytes, at + 1), at + 5))
    } else if m == 0xd3 && left >= 9 && bytes[at + 1] < 0x80 {
        Some((get64(bytes, at + 1), at + 9))
    } else {
        None
    }
}

fn get_u32(bytes: &[u8], at: usize) -> (res: Option<(u32, usize)>)
    ensures
        match res {
            Some((value, next)) => read_u32(bytes@, at as int) == Some((value, next as int))
                && at < next <= bytes@.len(),
            None => read_u32(bytes@, at as int) is None,
        },
{
    match get_uint(bytes, at) {
        Some((value, next)) => if value <= u32::MAX as u64 {
            Some((value as u32, next))
        } else {
            None
        },
        None => None,
    }
}

fn get_str(bytes: &[u8], at: usize) -> (res: Option<(usize, usize)>)
    ensures
        match res {
            Some((start, end)) => read_str(bytes@, at as int) == Some((start as int, end as int))
                && at < start <= end <= bytes@.len(),
            None => read_str(bytes@, at as int) is None,
        },
{
    let len = bytes.len();
    if at >= len {
        return None;
    }
    let left = len - at;
    let m = bytes[at];
    let (start, size): (usize, u64) = if 0xa0 <= m && m <= 0xbf {
        (at + 1, (m - 0xa0) as u64)
    } else if m == 0xd9 && left >= 2 {
        (at + 2, bytes[at + 1] as u64)
    } else if m == 0xda && left >= 3 {
        (at + 3, get16(bytes, at + 1))
    } else if m == 0xdb && left >= 5 {
        (at + 5, get32(bytes, at + 1))
    } else {
        return None;
    };
    if size > (len - start) as u64 {
        return None;
    }
    Some((start, start + size as usize))
}

fn get_array_len(bytes: &[u8], at: usize) -> (res: Option<(u64, usize)>)
    ensures
        match res {
            Some((count, next)) => read_array_len(bytes@, at as int) == Some(
                (count as int, next as int),
            ) && at < next <= bytes@.len() && count <= u32::MAX,
            None => read_array_len(bytes@, at as int) is None,
        },
{
    let len = bytes.len();
    if at >= len {
        return None;
    }
    let left = len - at;
    let m = bytes[at];
    if 0x90 <= m && m <= 0x9f {
        Some(((m - 0x90) as u64, at + 1))
    } else if m == 0xdc && left >= 3 {
        Some((get16(bytes, at + 1), at + 3))
    } else if m == 0xdd && left >= 5 {
        Some((get32(bytes, at + 1), at + 5))
    } else {
        None
    }
}

/// Where a value ends without the values that it holds, and how many it holds.
fn get_shape(bytes: &[u8], at: usize) -> (res: Option<(usize, u64)>)
    ensures
        match res {
            Some((next, held)) => value_shape(bytes@, at as int) == Some((next as int, held as int))
                && at < next <= bytes@.len() && held < 0x2_0000_0000,
            None => value_shape(bytes@, at as int) is None,
        },
{
    let len = bytes.len();
    if at >= len {
        return None;
    }
    let left = (len - at) as u64;
    let m = bytes[at];
    // the bytes of the value that come after its first, and the values in it
    let (size, held): (u64, u64) = if m < 0x80 || m >= 0xe0 || m == 0xc0 || m == 0xc2 || m == 0xc3 {
        (0, 0)
    } else if m <= 0x8f {
        (0, 2 * ((m - 0x80) as u64))
    } else if m <= 0x9f {
        (0, (m - 0x90) as u64)
    } else if m <= 0xbf {
        ((m - 0xa0) as u64, 0)
    } else if m == 0xcc || m == 0xd0 {
        (1, 0)
    } else if m == 0xcd || m == 0xd1 {
        (2, 0)
    } else if m == 0xce || m == 0xd2 || m == 0xca {
        (4, 0)
    } else if m == 0xcf || m == 0xd3 || m == 0xcb {
        (8, 0)
    } else if m == 0xd4 {
        (2, 0)
    } else if m == 0xd5 {
        (3, 0)
    } else if m == 0xd6 {
        (5, 0)
    } else if m == 0xd7 {
        (9, 0)
    } else if m == 0xd8 {
        (17, 0)
    } else if (m == 0xd9 || m == 0xc4) && left >= 2 {
        (1 + bytes[at + 1] as u64, 0)
    } else if (m == 0xda || m == 0xc5) && left >= 3 {
        (2 + get16(bytes, at + 1), 0)
    } else if (m == 0xdb || m == 0xc6) && left >= 5 {
        (4 + get32(bytes, at + 1), 0)
    } else if m == 0xc7 && left >= 2 {
        (2 + bytes[at + 1] as u64, 0)
    } else if m == 0xc8 && left >= 3 {
        (3 + get16(bytes, at + 1), 0)
    } else if m == 0xc9 && left >= 5 {
        (5 + get32(bytes, at + 1), 0)
    } else if m == 0xdc && left >= 3 {
        (2, get16(bytes, at + 1))
    } else if m == 0xdd && left >= 5 {
        (4, get32(bytes, at + 1))
    } else if m == 0xde && left >= 3 {
        (2, 2 * get16(bytes, at + 1))
    } else if m == 0xdf && left >= 5 {
        (4, 2 * get32(bytes, at + 1))
    } else {
        return None;
    };
    if size >= left {
        return None;
    }
    Some((at + 1 + size as usize, held))
}

/// Passes over `pending` values.
#[verifier::loop_isolation(false)]
fn skip(bytes: &[u8], at: usize, pending: u64) -> (res: Option<usize>)
    requires
        at <= bytes@.len(),
    ensures
        match res {
            Some(next) => skip_values(bytes@, at as int, pending as int) == Some(next as int)
                && at <= next <= bytes@.len(),
            None => skip_values(bytes@, at as int, pending as int) is None,
        },
{
    let mut at = at;
    let mut pending: u128 = pending as u128;
    let ghost start = at;
    let ghost count = pending;
    while pending > 0
        invariant
            start <= at <= bytes@.len(),
            pending <= count + (at - start) * 0x2_0000_0000,
            count <= u64::MAX,
            skip_values(bytes@, start as int, count as int) == skip_values(
                bytes@,
                at as int,
                pending as int,
            ),
        decreases bytes@.len() - at,
    {
        match get_shape(bytes, at) {
            Some((next, held)) => {
                pending = pending - 1 + held as u128;
                at = next;
            },
            None => {
                return None;
            },
        }
    }
    Some(at)
}

/// Tells whether the bytes from `start` to `end` are the given bytes.
fn range_is(bytes: &[u8], start: usize, end: usize, name: &Vec<u8>) -> (same: bool)
    requires
        start <= end <= bytes@.len(),
    ensures
        same == (bytes@.subrange(start as int, end as int) == name@),
{
    if end - start != name.len() {
        return false;
    }
    let ghost part = bytes@.subrange(start as int, end as int);
    let mut i: usize = 0;
    while i < name.len()
        invariant
            i <= name@.len(),
            start <= end <= bytes@.len(),
            end - start == name@.len(),
            part == bytes@.subrange(start as int, end as int),
            forall|j: int| 0 <= j < i ==> part[j] == name@[j],
        decreases name@.len() - i,
    {
        if bytes[start + i] != name[i] {
            assert(part[i as int] != name@[i as int]);
            return false;
        }
        i += 1;
    }
    assert(part =~= name@);
    true
}

/// The name that the bytes from `start` to `end` spell.
fn find_name(bytes: &[u8], start: usize, end: usize) -> (name: Option<Name>)
    requires
        start <= end <= bytes@.len(),
    ensures
        name == Name::of(bytes@.subrange(start as int, end as int)),
{
    if range_is(bytes, start, end, &Name::Clip.to_vec()) {
        Some(Name::Clip)
    } else if range_is(bytes, start, end, &Name::MirrorHorizontally.to_vec()) {
        Some(Name::MirrorHorizontally)
    } else if range_is(bytes, start, end, &Name::MirrorVertically.to_vec()) {
        Some(Name::MirrorVertically)
    } else if range_is(bytes, start, end, &Name::Rotate.to_vec()) {
        Some(Name::Rotate)
    } else if range_is(bytes, start, end, &Name::Quarter0.to_vec()) {
        Some(Name::Quarter0)
    } else if range_is(bytes, start, end, &Name::Quarter1.to_vec()) {
        Some(Name::Quarter1)
    } else if range_is(bytes, start, end, &Name::Quarter2.to_vec()) {
        Some(Name::Quarter2)
    } else if range_is(bytes, start, end, &Name::Quarter3.to_vec()) {
        Some(Name::Quarter3)
    } else {
        None
    }
}

fn get_area(bytes: &[u8], at: usize) -> (res: Option<((u32, u32, u32, u32), usize)>)
    ensures
        match res {
            Some((area, next)) => read_area(bytes@, at as int) == Some((area, next as int))
                && at < next <= bytes@.len(),
            None => read_area(bytes@, at as int) is None,
        },
{
    let (count, first) = match get_array_len(bytes, at) {
        Some(header) => header,
        None => {
            return None;
        },
    };
    if count != 4 {
        return None;
    }
    let (x, second) = match get_u32(bytes, first) {
        Some(value) => value,
        None => {
            return None;
        },
    };
    let (y, third) = match get_u32(bytes, second) {
        Some(value) => value,
        None => {
            return None;
        },
    };
    let (width, fourth) = match get_u32(bytes, third) {
        Some(value) => value,
        None => {
            return None;
        },
    };
    let (height, next) = match get_u32(bytes, fourth) {
        Some(value) => value,
        None => {
            return None;
        },
    };
    Some(((x, y, width, height), next))
}

fn get_rotation(bytes: &[u8], at: usize) -> (res: Option<(Rotation, usize)>)
    ensures
        match res {
            Some((rotation, next)) => read_rotation(bytes@, at as int) == Some(
                (rotation, next as int),
            ) && at < next <= bytes@.len(),
            None => read_rotation(bytes@, at as int) is None,
        },
{
    match get_str(bytes, at) {
        Some((start, end)) => match find_name(bytes, start, end) {
            Some(Name::Quarter0) => Some((Rotation::_0, end)),
            Some(Name::Quarter1) => Some((Rotation::_90, end)),
            Some(Name::Quarter2) => Some((Rotation::_180, end)),
            Some(Name::Quarter3) => Some((Rotation::_270, end)),
            _ => None,
        },
        None => None,
    }
}

/// An operation as it is read, with the place of the name of an unknown one.
enum Found {
    Known(Operation),
    Unknown(usize, usize),
}

impl Found {
    spec fn item(self, s: Seq<u8>) -> Item {
        match self {
            Found::Known(operation) => Item::Known(operation),
            Found::Unknown(start, end) => Item::Unknown(s.subrange(start as int, end as int)),
        }
    }
}

fn get_item(bytes: &[u8], at: usize) -> (res: Option<(Found, usize)>)
    ensures
        match res {
            Some((found, next)) => read_item(bytes@, at as int) == Some(
                (found.item(bytes@), next as int),
            ) && at < next <= bytes@.len() && (found matches Found::Unknown(start, end) ==> start
                <= end <= bytes@.len()),
            None => read_item(bytes@, at as int) is None,
        },
{
    if at >= bytes.len() {
        return None;
    }
    if bytes[at] == 0x81 {
        let (start, end) = match get_str(bytes, at + 1) {
            Some(span) => span,
            None => {
                return None;
            },
        };
        let known = match find_name(bytes, start, end) {
            Some(Name::Clip) => match get_area(bytes, end) {
                Some((area, next)) => Some((Operation::Clip(area), next)),
                None => None,
            },
            Some(Name::Rotate) => match get_rotation(bytes, end) {
                Some((rotation, next)) => Some((Operation::Rotate(rotation), next)),
                None => None,
            },
            _ => None,
        };
        match known {
            Some((operation, next)) => Some((Found::Known(operation), next)),
            None => match skip(bytes, end, 1) {
                Some(next) => {
                    proof {
                        lemma_skip_moves(bytes@, end as int, 1);
                    }
                    Some((Found::Unknown(start, end), next))
                },
                None => None,
            },
        }
    } else {
        match get_str(bytes, at) {
            Some((start, end)) => match find_name(bytes, start, end) {
                Some(Name::MirrorHorizontally) => Some(
                    (Found::Known(Operation::MirrorHorizontally), end),
                ),
                Some(Name::MirrorVertically) => Some(
                    (Found::Known(Operation::MirrorVertically), end),
                ),
                _ => Some((Found::Unknown(start, end), end)),
            },
            None => None,
        }
    }
}

/// Values that are passed over take at least one byte each.
pub proof fn lemma_skip_moves(s: Seq<u8>, at: int, pending: int)
    requires
        0 <= pending,
    ensures
        skip_values(s, at, pending) matches Some(next) ==> at + pending <= next,
    decreases s.len() - at,
{
    if pending > 0 {
        match value_shape(s, at) {
            Some((next, held)) => {
                if at < next <= s.len() {
                    lemma_skip_moves(s, next, pending - 1 + held);
                }
            },
            None => {},
        }
    }
}

/// The items that were read, followed by those that are still to be read.
pub open spec fn joined(items: Seq<Item>, rest: Option<Seq<Item>>) -> Option<Seq<Item>> {
    match rest {
        Some(rest) => Some(items + rest),
        None => None,
    }
}

/// Reading one item leaves the items that follow it.
proof fn lemma_read_next(s: Seq<u8>, at: int, count: nat, items: Seq<Item>, item: Item, next: int)
    requires
        count > 0,
        read_item(s, at) == Some((item, next)),
    ensures
        joined(items, read_items(s, at, count)) == joined(
            items.push(item),
            read_items(s, next, (count - 1) as nat),
        ),
{
    match read_items(s, next, (count - 1) as nat) {
        Some(rest) => {
            assert(items + (seq![item] + rest) =~= items.push(item) + rest);
        },
        None => {},
    }
}

/// Notes an item that was read.
fn record(
    found: Found,
    bytes: &[u8],
    operations: &mut Vec<Operation>,
    names: &mut Vec<String>,
    Ghost(items): Ghost<Seq<Item>>,
)
    requires
        found matches Found::Unknown(start, end) ==> start <= end <= bytes@.len(),
        old(operations)@ == known(items),
        crate::operations::names(old(names)@) == lossy_texts(unknown(items)),
    ensures
        final(operations)@ == known(items.push(found.item(bytes@))),
        crate::operations::names(final(names)@) == lossy_texts(
            unknown(items.push(found.item(bytes@))),
        ),
{
    let ghost longer = items.push(found.item(bytes@));
    assert(longer.drop_last() =~= items);
    assert(longer.last() == found.item(bytes@));
    match found {
        Found::Known(operation) => {
            operations.push(operation);
        },
        Found::Unknown(start, end) => {
            names.push(text_of_bytes(vstd::slice::slice_subrange(bytes, start, end)));
            let ghost name = bytes@.subrange(start as int, end as int);
            assert(unknown(longer) == unknown(items).push(name));
            assert(crate::operations::names(old(names)@).len() == unknown(items).len());
            assert forall|k: int| 0 <= k < names@.len() implies crate::operations::names(
                names@,
            )[k] == lossy_texts(unknown(longer))[k] by {
                if k < old(names)@.len() {
                    assert(crate::operations::names(old(names)@)[k] == lossy_texts(
                        unknown(items),
                    )[k]);
                    assert(unknown(longer)[k] == unknown(items)[k]);
                } else {
                    assert(unknown(longer)[k] == name);
                }
            }
            assert(crate::operations::names(names@) =~= lossy_texts(unknown(longer)));
        },
    }
}

/// Reads a list of operations from MessagePack.
///
/// Operations that are not known in their form are passed over, and their
/// names are kept with the list.
pub fn from_slice(bytes: &[u8]) -> (res: Result<Operations, DecodeError>)
    ensures
        match res {
            Ok(operations) => read_message(bytes@) matches Some(items) && operations@ == known(
                items,
            ) && operations.unknown() == lossy_texts(unknown(items)),
            Err(e) => read_message(bytes@) is None && e == DecodeError::Malformed,
        },
{
    let (fields, inner) = match get_array_len(bytes, 0) {
        Some(header) => header,
        None => {
            return Err(DecodeError::Malformed);
        },
    };
    if fields != 1 {
        return Err(DecodeError::Malformed);
    }
    let (count, first) = match get_array_len(bytes, inner) {
        Some(header) => header,
        None => {
            return Err(DecodeError::Malformed);
        },
    };
    let mut operations: Vec<Operation> = Vec::new();
    let mut names: Vec<String> = Vec::new();
    let ghost mut items: Seq<Item> = Seq::empty();
    let mut at = first;
    let mut i: u64 = 0;
    assert(crate::operations::names(names@) =~= lossy_texts(unknown(items)));
    proof {
        match read_items(bytes@, first as int, count as nat) {
            Some(rest) => {
                assert(items + rest =~= rest);
            },
            None => {},
        }
    }
    while i < count
        invariant
            i <= count,
            at <= bytes@.len(),
            read_message(bytes@) == joined(
                items,
                read_items(bytes@, at as int, (count - i) as nat),
            ),
            operations@ == known(items),
            crate::operations::names(names@) == lossy_texts(unknown(items)),
        decreases count - i,
    {
        let (found, next) = match get_item(bytes, at) {
            Some(item) => item,
            None => {
                return Err(DecodeError::Malformed);
            },
        };
        proof {
            lemma_read_next(
                bytes@,
                at as int,
                (count - i) as nat,
                items,
                found.item(bytes@),
                next as int,
            );
        }
        record(found, bytes, &mut operations, &mut names, Ghost(items));
        proof {
            items = items.push(found.item(bytes@));
        }
        at = next;
        i += 1;
    }
    assert(items + Seq::<Item>::empty() =~= items);
    Ok(Operations::with_unknown(operations, names))
}

impl Operations {
    /// Reads the list from MessagePack.
    pub fn from_slice(slice: &[u8]) -> (res: Result<Operations, DecodeError>)
        ensures
            match res {
                Ok(operations) => read_message(slice@) matches Some(items) && operations@
                    == known(items) && operations.unknown() == lossy_texts(unknown(items)),
                Err(e) => read_message(slice@) is None && e == DecodeError::Malformed,
            },
    {
        from_slice(slice)
    }

    /// Writes the list as MessagePack.
    pub fn to_message_pack(&self) -> (res: Result<Vec<u8>, EncodeError>)
        ensures
            match res {
                Ok(bytes) => self@.len() <= u32::MAX && bytes@ == message(self@),
                Err(e) => self@.len() > u32::MAX && e == EncodeError::TooManyOperations,
            },
    {
        to_message_pack(self)
    }
}

} // verus!
