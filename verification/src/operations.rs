//! Edit operations and their order.

use crate::editing::{
    area_within, change_orientation, check_orientable, clip, clip_rows, clipped_frame, orientable,
    oriented, oriented_frame, EditingError, EditingFrame,
};
use crate::orientation::{Orientation, Rotation};
use crate::text::str_equal;
use vstd::prelude::*;
use vstd::string::*;

verus! {

/// One change to an image.
#[derive(Debug, Clone, Copy, PartialEq, Eq)]
pub enum Operation {
    /// Keep the area `(x, y, width, height)`
    Clip((u32, u32, u32, u32)),
    MirrorHorizontally,
    MirrorVertically,
    /// Rotate counter-clockwise
    Rotate(Rotation),
}

/// The kind of an operation.
#[derive(Debug, Clone, Copy, PartialEq, Eq, Structural)]
pub enum OperationId {
    Clip,
    MirrorHorizontally,
    MirrorVertically,
    Rotate,
}

impl Operation {
    /// The kind of the operation.
    pub open spec fn kind(self) -> OperationId {
        match self {
            Operation::Clip(_) => OperationId::Clip,
            Operation::MirrorHorizontally => OperationId::MirrorHorizontally,
            Operation::MirrorVertically => OperationId::MirrorVertically,
            Operation::Rotate(_) => OperationId::Rotate,
        }
    }

    pub fn id(&self) -> (id: OperationId)
        ensures
            id == self.kind(),
    {
        match self {
            Operation::Clip(_) => OperationId::Clip,
            Operation::MirrorHorizontally => OperationId::MirrorHorizontally,
            Operation::MirrorVertically => OperationId::MirrorVertically,
            Operation::Rotate(_) => OperationId::Rotate,
        }
    }

    /// The change of orientation that the operation is; none for a clip.
    pub open spec fn orientation(self) -> Option<Orientation> {
        match self {
            Operation::Clip(_) => None,
            Operation::MirrorHorizontally => Some(Orientation::Mirrored),
            Operation::MirrorVertically => Some(Orientation::MirroredRotation180),
            Operation::Rotate(rotation) => Some(Orientation::of(false, rotation)),
        }
    }
}

impl OperationId {
    /// The name of the kind, as configuration and wire format write it.
    pub open spec fn name(self) -> Seq<char> {
        match self {
            OperationId::Clip => "Clip"@,
            OperationId::MirrorHorizontally => "MirrorHorizontally"@,
            OperationId::MirrorVertically => "MirrorVertically"@,
            OperationId::Rotate => "Rotate"@,
        }
    }

    /// The kind of the given name, if it names one.
    pub open spec fn of_name(name: Seq<char>) -> Option<OperationId> {
        if name == "Clip"@ {
            Some(OperationId::Clip)
        } else if name == "MirrorHorizontally"@ {
            Some(OperationId::MirrorHorizontally)
        } else if name == "MirrorVertically"@ {
            Some(OperationId::MirrorVertically)
        } else if name == "Rotate"@ {
            Some(OperationId::Rotate)
        } else {
            None
        }
    }

    /// The four names differ, so each kind is found again by its name.
    pub proof fn lemma_name_round_trip(self)
        ensures
            OperationId::of_name(self.name()) == Some(self),
    {
        reveal_strlit("Clip");
        reveal_strlit("MirrorHorizontally");
        reveal_strlit("MirrorVertically");
        reveal_strlit("Rotate");
        assert("Clip"@.len() == 4);
        assert("MirrorHorizontally"@.len() == 18);
        assert("MirrorVertically"@.len() == 16);
        assert("Rotate"@.len() == 6);
    }

    pub fn as_str(self) -> (name: &'static str)
        ensures
            name@ == self.name(),
    {
        match self {
            OperationId::Clip => "Clip",
            OperationId::MirrorHorizontally => "MirrorHorizontally",
            OperationId::MirrorVertically => "MirrorVertically",
            OperationId::Rotate => "Rotate",
        }
    }

    /// The kind that a name stands for.
    pub fn from_name(name: &str) -> (id: Option<OperationId>)
        ensures
            id == OperationId::of_name(name@),
    {
        if str_equal(name, "Clip") {
            Some(OperationId::Clip)
        } else if str_equal(name, "MirrorHorizontally") {
            Some(OperationId::MirrorHorizontally)
        } else if str_equal(name, "MirrorVertically") {
            Some(OperationId::MirrorVertically)
        } else if str_equal(name, "Rotate") {
            Some(OperationId::Rotate)
        } else {
            None
        }
    }
}

/// The operations that an orientation stands for.
pub open spec fn orientation_operations(orientation: Orientation) -> Seq<Operation> {
    (if orientation.mirrored() {
        seq![Operation::MirrorHorizontally]
    } else {
        Seq::empty()
    }) + (if orientation.rotation() == Rotation::_0 {
        Seq::empty()
    } else {
        seq![Operation::Rotate(orientation.rotation())]
    })
}

/// An ordered list of operations.
#[derive(Debug, Clone, PartialEq, Eq)]
pub struct Operations {
    operations: Vec<Operation>,
    unknown_operations: Vec<String>,
}

/// The names of the unknown operations as plain text.
pub open spec fn names(unknown: Seq<String>) -> Seq<Seq<char>> {
    Seq::new(unknown.len(), |i: int| unknown[i]@)
}

/// The kinds of the operations, in their order.
pub open spec fn kinds(operations: Seq<Operation>) -> Seq<OperationId> {
    Seq::new(operations.len(), |i: int| operations[i].kind())
}

/// What becomes of a buffer and its frame.
pub struct Edited {
    pub buf: Seq<u8>,
    pub frame: EditingFrame,
}

/// The buffer and frame after one operation, or the reason why the operation
/// cannot be applied.
pub open spec fn applied_one(buf: Seq<u8>, frame: EditingFrame, operation: Operation) -> Result<
    Edited,
    EditingError,
> {
    if !frame.fits(buf.len()) {
        Err(EditingError::OutOfBounds)
    } else {
        match operation {
            Operation::Clip(area) => {
                if area_within(frame, area) {
                    Ok(
                        Edited {
                            buf: clip_rows(buf, frame, area, area.3 as nat),
                            frame: clipped_frame(frame, area),
                        },
                    )
                } else {
                    Err(EditingError::OutOfBounds)
                }
            },
            _ => {
                let orientation = operation.orientation()->0;
                if orientable(frame, orientation) {
                    Ok(
                        Edited {
                            buf: oriented(buf, frame, orientation),
                            frame: oriented_frame(frame, orientation),
                        },
                    )
                } else {
                    Err(EditingError::Math)
                }
            },
        }
    }
}

/// The buffer and frame after the first `count` operations, or the reason why
/// the first operation that cannot be applied fails.
pub open spec fn applied(
    buf: Seq<u8>,
    frame: EditingFrame,
    operations: Seq<Operation>,
    count: nat,
) -> Result<Edited, EditingError>
    decreases count,
{
    if count == 0 {
        Ok(Edited { buf, frame })
    } else {
        match applied(buf, frame, operations, (count - 1) as nat) {
            Ok(before) => applied_one(before.buf, before.frame, operations[count - 1]),
            Err(e) => Err(e),
        }
    }
}

impl Operations {
    /// The operations in their order.
    pub closed spec fn view(&self) -> Seq<Operation> {
        self.operations@
    }

    /// The names of operations that were read and not understood.
    pub closed spec fn unknown(&self) -> Seq<Seq<char>> {
        names(self.unknown_operations@)
    }

    pub fn new(operations: Vec<Operation>) -> (list: Operations)
        ensures
            list@ == operations@,
            list.unknown() == Seq::<Seq<char>>::empty(),
    {
        let list = Operations { operations, unknown_operations: Vec::new() };
        assert(list.unknown() =~= Seq::<Seq<char>>::empty());
        list
    }

    /// A list of operations together with the names of those that were read
    /// and not understood.
    pub fn with_unknown(operations: Vec<Operation>, unknown_operations: Vec<String>) -> (list:
        Operations)
        ensures
            list@ == operations@,
            list.unknown() == names(unknown_operations@),
    {
        Operations { operations, unknown_operations }
    }

    pub fn operations(&self) -> (operations: &Vec<Operation>)
        ensures
            operations@ == self@,
    {
        &self.operations
    }

    pub fn operation_ids(&self) -> (ids: Vec<OperationId>)
        ensures
            ids@ == kinds(self@),
    {
        let mut ids: Vec<OperationId> = Vec::new();
        let mut i: usize = 0;
        while i < self.operations.len()
            invariant
                i <= self.operations@.len(),
                ids@ == kinds(self.operations@.subrange(0, i as int)),
            decreases self.operations@.len() - i,
        {
            ids.push(self.operations[i].id());
            i += 1;
            assert(ids@ =~= kinds(self.operations@.subrange(0, i as int)));
        }
        assert(self.operations@.subrange(0, i as int) =~= self.operations@);
        ids
    }

    /// The operations that bring an image of the given orientation upright:
    /// the mirroring where there is one, and then the rotation where there
    /// is one.
    pub fn new_orientation(orientation: Orientation) -> (list: Operations)
        ensures
            list@ == orientation_operations(orientation),
            list.unknown() == Seq::<Seq<char>>::empty(),
    {
        let mut operations: Vec<Operation> = Vec::new();
        if orientation.mirror() {
            operations.push(Operation::MirrorHorizontally);
        }
        match orientation.rotate() {
            Rotation::_0 => {},
            rotation => {
                operations.push(Operation::Rotate(rotation));
            },
        }
        assert(operations@ =~= orientation_operations(orientation));
        Operations::new(operations)
    }

    /// Puts the operations of `first` before the operations of the list.
    pub fn prepend(&mut self, first: Operations)
        ensures
            final(self)@ == first@ + old(self)@,
            final(self).unknown() == first.unknown() + old(self).unknown(),
    {
        let mut operations = first.operations;
        let mut unknown_operations = first.unknown_operations;
        let ghost head = operations@;
        let ghost head_names = unknown_operations@;
        let mut i: usize = 0;
        while i < self.operations.len()
            invariant
                i <= self.operations@.len(),
                operations@ == head + self.operations@.subrange(0, i as int),
            decreases self.operations@.len() - i,
        {
            operations.push(self.operations[i]);
            assert(operations@ =~= head + self.operations@.subrange(0, i + 1));
            i += 1;
        }
        assert(self.operations@.subrange(0, i as int) =~= self.operations@);
        let mut j: usize = 0;
        while j < self.unknown_operations.len()
            invariant
                j <= self.unknown_operations@.len(),
                unknown_operations@.len() == head_names.len() + j,
                forall|k: int|
                    0 <= k < head_names.len() ==> (#[trigger] unknown_operations@[k])@
                        == head_names[k]@,
                forall|k: int|
                    0 <= k < j ==> (#[trigger] unknown_operations@[head_names.len() + k])@
                        == self.unknown_operations@[k]@,
            decreases self.unknown_operations@.len() - j,
        {
            unknown_operations.push(self.unknown_operations[j].clone());
            j += 1;
        }
        assert(names(unknown_operations@) =~= names(head_names) + names(
            self.unknown_operations@,
        )) by {
            let joined = names(head_names) + names(self.unknown_operations@);
            assert forall|k: int| 0 <= k < unknown_operations@.len() implies names(
                unknown_operations@,
            )[k] == joined[k] by {
                if k >= head_names.len() {
                    let at = k - head_names.len();
                    assert(unknown_operations@[head_names.len() + at]@
                        == self.unknown_operations@[at]@);
                }
            }
        }
        self.operations = operations;
        self.unknown_operations = unknown_operations;
    }

    /// Returns information about all operations that were unknown when
    /// reading the list
    pub fn unknown_operations(&self) -> (unknown: &Vec<String>)
        ensures
            names(unknown@) == self.unknown(),
    {
        &self.unknown_operations
    }

    /// Applies the operations one after the other to the buffer.
    ///
    /// The first operation that cannot be applied ends the work: a clip
    /// outside of the frame, a frame that the buffer does not hold, or a
    /// quarter turn whose rows would be longer than a stride can say. After
    /// an error the frame is as the last applied operation left it.
    #[verifier::loop_isolation(false)]
    pub fn apply(&self, buf: Vec<u8>, frame: &mut EditingFrame) -> (res: Result<
        Vec<u8>,
        EditingError,
    >)
        ensures
            match res {
                Ok(new) => applied(buf@, *old(frame), self@, self@.len()) == Ok::<
                    Edited,
                    EditingError,
                >(Edited { buf: new@, frame: *final(frame) }),
                Err(e) => applied(buf@, *old(frame), self@, self@.len()) == Err::<
                    Edited,
                    EditingError,
                >(e),
            },
    {
        let ghost start = buf@;
        let ghost start_frame = *frame;
        let mut buf = buf;
        let mut i: usize = 0;
        while i < self.operations.len()
            invariant
                i <= self.operations@.len(),
                applied(start, start_frame, self.operations@, i as nat) == Ok::<
                    Edited,
                    EditingError,
                >(Edited { buf: buf@, frame: *frame }),
            decreases self.operations@.len() - i,
        {
            let ghost before = buf@;
            let ghost before_frame = *frame;
            if !frame.check_fits(buf.len()) {
                proof {
                    assert(applied(start, start_frame, self.operations@, i as nat + 1)
                        == applied_one(before, before_frame, self.operations@[i as int]));
                    lemma_applied_fails(start, start_frame, self.operations@, i as nat + 1);
                    assert(self@ == self.operations@);
                }
                return Err(EditingError::OutOfBounds);
            }
            let orientation = match self.operations[i] {
                Operation::Clip(area) => {
                    match clip(buf, frame, area) {
                        Ok(new) => {
                            buf = new;
                        },
                        Err(e) => {
                            proof {
                                assert(applied(start, start_frame, self.operations@, i as nat + 1)
                                    == applied_one(
                                    before,
                                    before_frame,
                                    self.operations@[i as int],
                                ));
                                lemma_applied_fails(
                                    start,
                                    start_frame,
                                    self.operations@,
                                    i as nat + 1,
                                );
                                assert(self@ == self.operations@);
                            }
                            return Err(e);
                        },
                    }
                    None
                },
                Operation::Rotate(rotation) => Some(Orientation::new(false, rotation)),
                Operation::MirrorHorizontally => Some(Orientation::new(true, Rotation::_0)),
                Operation::MirrorVertically => Some(Orientation::new(true, Rotation::_180)),
            };
            match orientation {
                Some(orientation) => {
                    if !check_orientable(frame, orientation) {
                        proof {
                            assert(applied(start, start_frame, self.operations@, i as nat + 1)
                                == applied_one(before, before_frame, self.operations@[i as int]));
                            lemma_applied_fails(start, start_frame, self.operations@, i as nat + 1);
                            assert(self@ == self.operations@);
                        }
                        return Err(EditingError::Math);
                    }
                    buf = change_orientation(buf, frame, orientation);
                },
                None => {},
            }
            proof {
                assert(applied(start, start_frame, self.operations@, i as nat + 1) == applied_one(
                    before,
                    before_frame,
                    self.operations@[i as int],
                ));
            }
            i += 1;
        }
        Ok(buf)
    }
}

/// Once an operation has failed, the operations after it change nothing.
pub proof fn lemma_applied_fails(
    buf: Seq<u8>,
    frame: EditingFrame,
    operations: Seq<Operation>,
    failed: nat,
)
    requires
        failed <= operations.len(),
        applied(buf, frame, operations, failed) is Err,
    ensures
        applied(buf, frame, operations, operations.len()) == applied(
            buf,
            frame,
            operations,
            failed,
        ),
    decreases operations.len() - failed,
{
    if failed < operations.len() {
        assert(applied(buf, frame, operations, failed + 1) == applied(
            buf,
            frame,
            operations,
            failed,
        ));
        lemma_applied_fails(buf, frame, operations, failed + 1);
    }
}

} // verus!
