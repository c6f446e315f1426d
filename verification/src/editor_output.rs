//! What an editor hands back: a few changed bytes, or a whole new image.

use crate::error::{Error, RemoteError};
use crate::frame::{BinaryData, Frame, ImageDetails};
use crate::message_pack::{known, lossy_texts, message, read_message, unknown};
use crate::operations::Operations;
use vstd::prelude::*;
use vstd::string::*;

verus! {

/// One byte of a file that gets a new value.
#[derive(Debug, Clone, Copy, PartialEq, Eq, Structural)]
pub struct ByteChange {
    pub offset: u64,
    pub new_value: u8,
}

/// Changes of single bytes, in the order in which they are made.
#[derive(Debug, Clone, PartialEq, Eq)]
pub struct ByteChanges {
    pub changes: Vec<ByteChange>,
}

/// Whether every one of the first `count` changes lies inside of `len` bytes.
pub open spec fn changes_within(changes: Seq<ByteChange>, len: nat, count: nat) -> bool {
    forall|i: int| 0 <= i < count ==> (#[trigger] changes[i]).offset < len
}

/// The data after the first `count` changes were made, one after the other.
pub open spec fn changed(data: Seq<u8>, changes: Seq<ByteChange>, count: nat) -> Seq<u8>
    decreases count,
{
    if count == 0 {
        data
    } else {
        changed(data, changes, (count - 1) as nat).update(
            changes[count - 1].offset as int,
            changes[count - 1].new_value,
        )
    }
}

/// The changes that pairs of offset and value stand for.
pub open spec fn changes_of(pairs: Seq<(u64, u8)>) -> Seq<ByteChange> {
    Seq::new(pairs.len(), |i: int| ByteChange { offset: pairs[i].0, new_value: pairs[i].1 })
}

/// Changes leave the length of the data as it is.
pub proof fn lemma_changed_len(data: Seq<u8>, changes: Seq<ByteChange>, count: nat)
    requires
        changes_within(changes, data.len(), count),
    ensures
        changed(data, changes, count).len() == data.len(),
    decreases count,
{
    if count > 0 {
        lemma_changed_len(data, changes, (count - 1) as nat);
        assert(changes[count - 1].offset < data.len());
    }
}

/// A byte that no change names keeps its value, and a byte that the changes
/// name once has the value of that change.
pub proof fn lemma_changed_byte(data: Seq<u8>, changes: Seq<ByteChange>, count: nat, at: int)
    requires
        0 <= at < data.len(),
        count <= changes.len(),
        changes_within(changes, data.len(), count),
    ensures
        (forall|i: int| 0 <= i < count ==> (#[trigger] changes[i]).offset != at) ==> changed(
            data,
            changes,
            count,
        )[at] == data[at],
        count > 0 && changes[count - 1].offset == at ==> changed(data, changes, count)[at]
            == changes[count - 1].new_value,
    decreases count,
{
    if count > 0 {
        lemma_changed_len(data, changes, (count - 1) as nat);
        lemma_changed_byte(data, changes, (count - 1) as nat, at);
        assert(changes[count - 1].offset < data.len());
    }
}

impl ByteChanges {
    pub fn from_slice(changes: &[(u64, u8)]) -> (list: ByteChanges)
        ensures
            list.changes@ == changes_of(changes@),
    {
        let mut list: Vec<ByteChange> = Vec::new();
        let mut i: usize = 0;
        while i < changes.len()
            invariant
                i <= changes@.len(),
                list@ == changes_of(changes@.subrange(0, i as int)),
            decreases changes@.len() - i,
        {
            let (offset, new_value) = changes[i];
            list.push(ByteChange { offset, new_value });
            assert(list@ =~= changes_of(changes@.subrange(0, i + 1)));
            i += 1;
        }
        assert(changes@.subrange(0, i as int) =~= changes@);
        ByteChanges { changes: list }
    }

    /// Tells whether every change lies inside of `len` bytes.
    pub fn fits(&self, len: usize) -> (fits: bool)
        ensures
            fits == changes_within(self.changes@, len as nat, self.changes@.len()),
    {
        let mut i: usize = 0;
        while i < self.changes.len()
            invariant
                i <= self.changes@.len(),
                changes_within(self.changes@, len as nat, i as nat),
            decreases self.changes@.len() - i,
        {
            if self.changes[i].offset >= len as u64 {
                return false;
            }
            i += 1;
        }
        true
    }

    /// Makes the changes one after the other.
    pub fn apply(&self, data: &mut Vec<u8>)
        requires
            changes_within(self.changes@, old(data)@.len(), self.changes@.len()),
        ensures
            final(data)@ == changed(old(data)@, self.changes@, self.changes@.len()),
    {
        let ghost before = data@;
        let len = data.len();
        let mut i: usize = 0;
        while i < self.changes.len()
            invariant
                i <= self.changes@.len(),
                len == before.len(),
                data@.len() == before.len(),
                changes_within(self.changes@, before.len(), self.changes@.len()),
                data@ == changed(before, self.changes@, i as nat),
            decreases self.changes@.len() - i,
        {
            let change = self.changes[i];
            assert(self.changes@[i as int].offset < before.len());
            data.set(change.offset as usize, change.new_value);
            assert(changed(before, self.changes@, i as nat + 1) == changed(
                before,
                self.changes@,
                i as nat,
            ).update(change.offset as int, change.new_value));
            i += 1;
        }
    }
}

/// What is known of the result of an edit.
#[derive(Debug, Clone, Copy, PartialEq, Eq, Structural)]
pub struct EditorOutputInfo {
    /// Operation is considered to be lossless
    ///
    /// Operations are considered lossless when all metadata are kept, no image
    /// data is lost, and no image quality is lost.
    pub lossless: bool,
}

impl Default for EditorOutputInfo {
    fn default() -> (info: EditorOutputInfo)
        ensures
            !info.lossless,
    {
        EditorOutputInfo { lossless: false }
    }
}

/// A whole image as the result of an edit.
#[derive(Debug, Clone, PartialEq, Eq)]
pub struct CompleteEditorOutput {
    pub data: BinaryData,
    pub info: EditorOutputInfo,
}

impl CompleteEditorOutput {
    pub fn new(data: BinaryData) -> (output: CompleteEditorOutput)
        ensures
            output.data == data,
            !output.info.lossless,
    {
        CompleteEditorOutput { data, info: EditorOutputInfo::default() }
    }

    pub fn new_lossless(data: Vec<u8>) -> (output: CompleteEditorOutput)
        ensures
            output.data@ == data@,
            output.info.lossless,
    {
        CompleteEditorOutput {
            data: BinaryData::from_data(data),
            info: EditorOutputInfo { lossless: true },
        }
    }
}

/// Result of a sparse editor operation
///
/// This either contains byte changes or data, depending on whether a sparse
/// application of the operations was possible, and never both.
#[derive(Debug, PartialEq, Eq)]
pub struct SparseEditorOutput {
    byte_changes: Option<ByteChanges>,
    data: Option<BinaryData>,
    info: EditorOutputInfo,
}

/// Whether exactly one of the two is there.
pub open spec fn exactly_one(byte_changes: Option<ByteChanges>, data: Option<BinaryData>) -> bool {
    (byte_changes is Some) != (data is Some)
}

impl SparseEditorOutput {
    #[verifier::type_invariant]
    spec fn one_of_both(self) -> bool {
        exactly_one(self.byte_changes, self.data)
    }

    /// The changed bytes, where the edit was sparse.
    pub closed spec fn changes(&self) -> Option<ByteChanges> {
        self.byte_changes
    }

    /// The whole image, where the edit was not sparse.
    pub closed spec fn image(&self) -> Option<BinaryData> {
        self.data
    }

    /// What is known of the result.
    pub closed spec fn output_info(&self) -> EditorOutputInfo {
        self.info
    }

    pub fn byte_changes(byte_changes: ByteChanges) -> (output: SparseEditorOutput)
        ensures
            output.changes() == Some(byte_changes),
            output.image() is None,
            output.output_info().lossless,
    {
        SparseEditorOutput {
            byte_changes: Some(byte_changes),
            data: None,
            info: EditorOutputInfo { lossless: true },
        }
    }

    /// The output for a whole image.
    pub fn from_complete(value: CompleteEditorOutput) -> (output: SparseEditorOutput)
        ensures
            output.changes() is None,
            output.image() == Some(value.data),
            output.output_info() == value.info,
    {
        SparseEditorOutput { byte_changes: None, data: Some(value.data), info: value.info }
    }

    /// The output made of the parts as they come over the wire. Parts that
    /// hold both changed bytes and an image, or neither, are refused.
    pub fn from_parts(
        byte_changes: Option<ByteChanges>,
        data: Option<BinaryData>,
        info: EditorOutputInfo,
    ) -> (res: Result<SparseEditorOutput, Error>)
        ensures
            res is Ok <==> exactly_one(byte_changes, data),
            match res {
                Ok(output) => output.changes() == byte_changes && output.image() == data
                    && output.output_info() == info,
                Err(e) => e matches Error::RemoteError(RemoteError::InternalLoaderError(_)),
            },
    {
        let has_changes = byte_changes.is_some();
        let has_data = data.is_some();
        if has_changes && has_data {
            Err(
                Error::RemoteError(
                    RemoteError::InternalLoaderError(
                        "Sparse editor output with 'byte_changes' and 'data' returned.".to_owned(),
                    ),
                ),
            )
        } else if !has_changes && !has_data {
            Err(
                Error::RemoteError(
                    RemoteError::InternalLoaderError(
                        "Sparse editor output with neither 'byte_changes' nor 'data' returned.".to_owned(),
                    ),
                ),
            )
        } else {
            Ok(SparseEditorOutput { byte_changes, data, info })
        }
    }

    /// The parts of the output: exactly one of the first two is there.
    pub fn into_parts(self) -> (parts: (Option<ByteChanges>, Option<BinaryData>, EditorOutputInfo))
        ensures
            parts.0 == self.changes(),
            parts.1 == self.image(),
            parts.2 == self.output_info(),
            exactly_one(parts.0, parts.1),
    {
        proof {
            use_type_invariant(&self);
        }
        (self.byte_changes, self.data, self.info)
    }

    /// Tells whether the edit was sparse.
    pub fn is_sparse(&self) -> (sparse: bool)
        ensures
            sparse == (self.changes() is Some),
            sparse == (self.image() is None),
    {
        proof {
            use_type_invariant(self);
        }
        match &self.byte_changes {
            Some(_) => true,
            None => false,
        }
    }

    pub fn info(&self) -> (info: EditorOutputInfo)
        ensures
            info == self.output_info(),
    {
        self.info
    }
}

/// An image change that is potentially sparse.
#[derive(Debug, Clone, PartialEq, Eq)]
pub enum SparseEdit {
    /// The operations can be applied to the image via only changing a few
    /// bytes. [`SparseEdit::apply_to`] applies these changes.
    Sparse(ByteChanges),
    /// The operations require to completely rewrite the image.
    Complete(BinaryData),
}

/// Whether an image could be changed via the chosen method.
#[derive(Debug, Clone, Copy, PartialEq, Eq, Structural)]
pub enum EditOutcome {
    Changed,
    Unchanged,
}

/// A whole image as the result of an edit, on the side of the host.
#[derive(Debug, Clone, PartialEq, Eq)]
pub struct Edit {
    data: BinaryData,
    info: EditorOutputInfo,
}

impl Edit {
    /// The image.
    pub closed spec fn image(&self) -> BinaryData {
        self.data
    }

    /// Whether the edit has lost nothing.
    pub closed spec fn lossless(&self) -> bool {
        self.info.lossless
    }

    /// The edit for the output of an editor.
    pub fn from_output(output: CompleteEditorOutput) -> (edit: Edit)
        ensures
            edit.image() == output.data,
            edit.lossless() == output.info.lossless,
    {
        Edit { data: output.data, info: output.info }
    }

    pub fn data(&self) -> (data: BinaryData)
        ensures
            data@ == self.image()@,
    {
        BinaryData::from_data(self.data.get_full())
    }

    pub fn is_lossless(&self) -> (lossless: bool)
        ensures
            lossless == self.lossless(),
    {
        self.info.lossless
    }
}

/// The first change that cannot be made on `len` bytes, if there is one among
/// the first `count`.
pub open spec fn first_misfit(changes: Seq<ByteChange>, len: nat, count: nat) -> Option<int>
    decreases count,
{
    if count == 0 {
        None
    } else {
        match first_misfit(changes, len, (count - 1) as nat) {
            Some(i) => Some(i),
            None => if changes[count - 1].offset >= len {
                Some(count - 1)
            } else {
                None
            },
        }
    }
}

/// The error for a change that lies outside of the data: its offset does not
/// fit a file position, or it lies behind the end.
pub open spec fn misfit_is_conversion(change: ByteChange) -> bool {
    change.offset > i64::MAX
}

impl SparseEdit {
    /// The edit that an output of an editor stands for.
    pub fn try_from(value: SparseEditorOutput) -> (res: Result<SparseEdit, Error>)
        ensures
            match res {
                Ok(SparseEdit::Sparse(changes)) => value.changes() == Some(changes),
                Ok(SparseEdit::Complete(data)) => value.changes() is None && value.image() == Some(
                    data,
                ),
                Err(_) => false,
            },
    {
        let (byte_changes, data, _info) = value.into_parts();
        match byte_changes {
            Some(changes) => Ok(SparseEdit::Sparse(changes)),
            None => match data {
                Some(data) => Ok(SparseEdit::Complete(data)),
                None => Err(Error::InternalCommunicationCanceled),
            },
        }
    }

    /// Tells what is to be written to a file of `len` bytes: the number of
    /// changes that are made, from the first on, and what the edit then comes
    /// to. A change that lies outside of the file ends the work with an
    /// error, and the changes before it are made.
    pub fn writes_for(&self, len: u64) -> (plan: (usize, Result<EditOutcome, Error>))
        ensures
            match *self {
                SparseEdit::Complete(_) => plan == (
                    0usize,
                    Ok::<EditOutcome, Error>(EditOutcome::Unchanged),
                ),
                SparseEdit::Sparse(list) => match first_misfit(
                    list.changes@,
                    len as nat,
                    list.changes@.len(),
                ) {
                    None => plan == (
                        list.changes@.len() as usize,
                        Ok::<EditOutcome, Error>(EditOutcome::Changed),
                    ),
                    Some(i) => plan.0 == i && 0 <= i < list.changes@.len() && (
                    if misfit_is_conversion(list.changes@[i]) {
                        plan.1 == Err::<EditOutcome, Error>(Error::ConversionTooLarge)
                    } else {
                        plan.1 matches Err(Error::StdIoError { .. })
                    }),
                },
            },
    {
        match self {
            SparseEdit::Complete(_) => (0, Ok(EditOutcome::Unchanged)),
            SparseEdit::Sparse(list) => {
                let mut i: usize = 0;
                while i < list.changes.len()
                    invariant
                        i <= list.changes@.len(),
                        *self == SparseEdit::Sparse(*list),
                        first_misfit(list.changes@, len as nat, i as nat) is None,
                    decreases list.changes@.len() - i,
                {
                    let change = list.changes[i];
                    if change.offset >= len {
                        proof {
                            lemma_misfit_stays(list.changes@, len as nat, i as nat + 1);
                        }
                        if change.offset > i64::MAX as u64 {
                            return (i, Err(Error::ConversionTooLarge));
                        }
                        return (
                            i,
                            Err(
                                Error::StdIoError {
                                    err: "write beyond the end of the file".to_owned(),
                                    info: String::new(),
                                },
                            ),
                        );
                    }
                    i += 1;
                }
                (i, Ok(EditOutcome::Changed))
            },
        }
    }

    /// Apply sparse changes if applicable.
    ///
    /// The changes are made one after the other on the bytes of the file. A
    /// change that lies outside of the file ends the work with an error, and
    /// the changes before it stay. If the type does not carry sparse changes,
    /// the function will return an [`EditOutcome::Unchanged`] and the complete
    /// image needs to be rewritten.
    pub fn apply_to(&self, file: &mut Vec<u8>) -> (res: Result<EditOutcome, Error>)
        ensures
            match *self {
                SparseEdit::Complete(_) => res == Ok::<EditOutcome, Error>(EditOutcome::Unchanged)
                    && final(file)@ == old(file)@,
                SparseEdit::Sparse(list) => match first_misfit(
                    list.changes@,
                    old(file)@.len(),
                    list.changes@.len(),
                ) {
                    None => res == Ok::<EditOutcome, Error>(EditOutcome::Changed) && final(file)@
                        == changed(old(file)@, list.changes@, list.changes@.len()),
                    Some(i) => 0 <= i < list.changes@.len() && final(file)@ == changed(
                        old(file)@,
                        list.changes@,
                        i as nat,
                    ) && (if misfit_is_conversion(list.changes@[i]) {
                        res == Err::<EditOutcome, Error>(Error::ConversionTooLarge)
                    } else {
                        res matches Err(Error::StdIoError { .. })
                    }),
                },
            },
    {
        match self {
            SparseEdit::Complete(_) => Ok(EditOutcome::Unchanged),
            SparseEdit::Sparse(list) => {
                let ghost before = file@;
                let len = file.len();
                let mut i: usize = 0;
                while i < list.changes.len()
                    invariant
                        i <= list.changes@.len(),
                        before == old(file)@,
                        *self == SparseEdit::Sparse(*list),
                        len == before.len(),
                        file@.len() == before.len(),
                        first_misfit(list.changes@, before.len(), i as nat) is None,
                        file@ == changed(before, list.changes@, i as nat),
                    decreases list.changes@.len() - i,
                {
                    let change = list.changes[i];
                    if change.offset >= len as u64 {
                        proof {
                            lemma_misfit_stays(list.changes@, before.len(), i as nat + 1);
                        }
                        if change.offset > i64::MAX as u64 {
                            return Err(Error::ConversionTooLarge);
                        }
                        return Err(
                            Error::StdIoError {
                                err: "write beyond the end of the file".to_owned(),
                                info: String::new(),
                            },
                        );
                    }
                    file.set(change.offset as usize, change.new_value);
                    assert(changed(before, list.changes@, i as nat + 1) == changed(
                        before,
                        list.changes@,
                        i as nat,
                    ).update(change.offset as int, change.new_value));
                    i += 1;
                }
                Ok(EditOutcome::Changed)
            },
        }
    }
}

/// The first change that cannot be made stays the first when more changes
/// follow.
pub proof fn lemma_misfit_stays(changes: Seq<ByteChange>, len: nat, found: nat)
    requires
        found <= changes.len(),
        first_misfit(changes, len, found) is Some,
    ensures
        first_misfit(changes, len, changes.len()) == first_misfit(changes, len, found),
        0 <= first_misfit(changes, len, found)->0 < found,
    decreases changes.len() - found,
{
    lemma_misfit_bound(changes, len, found);
    if found < changes.len() {
        assert(first_misfit(changes, len, found + 1) == first_misfit(changes, len, found));
        lemma_misfit_stays(changes, len, found + 1);
    }
}

proof fn lemma_misfit_bound(changes: Seq<ByteChange>, len: nat, count: nat)
    ensures
        match first_misfit(changes, len, count) {
            Some(i) => 0 <= i < count && changes[i].offset >= len && first_misfit(
                changes,
                len,
                i as nat,
            ) is None,
            None => true,
        },
    decreases count,
{
    if count > 0 {
        lemma_misfit_bound(changes, len, (count - 1) as nat);
    }
}

/// What an editor is told when it is started.
#[derive(Debug, Clone, PartialEq, Eq)]
pub struct InitializationDetails {
    /// Directory of the image, where the helper may see it
    pub base_dir: Option<String>,
}

impl Default for InitializationDetails {
    fn default() -> (details: InitializationDetails)
        ensures
            details.base_dir is None,
    {
        InitializationDetails { base_dir: None }
    }
}

/// How an image is to be encoded.
#[derive(Debug, Clone, Copy, PartialEq, Eq)]
pub struct EncodingOptions {
    pub quality: Option<u8>,
    pub compression: Option<u8>,
}

impl Default for EncodingOptions {
    fn default() -> (options: EncodingOptions)
        ensures
            options.quality is None,
            options.compression is None,
    {
        EncodingOptions { quality: None, compression: None }
    }
}

/// An image that is to be encoded.
#[derive(Debug, Clone, PartialEq, Eq)]
pub struct NewImage {
    pub image_info: ImageDetails,
    pub frames: Vec<Frame>,
}

impl NewImage {
    pub fn new(image_info: ImageDetails, frames: Vec<Frame>) -> (image: NewImage)
        ensures
            image.image_info == image_info,
            image.frames == frames,
    {
        NewImage { image_info, frames }
    }
}

/// An image in the bytes of its file format.
#[derive(Debug, Clone, PartialEq, Eq)]
pub struct EncodedImage {
    pub data: BinaryData,
}

impl EncodedImage {
    pub fn new(data: BinaryData) -> (image: EncodedImage)
        ensures
            image.data == data,
    {
        EncodedImage { data }
    }

    pub fn data_full(&self) -> (data: Vec<u8>)
        ensures
            data@ == self.data@,
    {
        self.data.get_full()
    }
}

/// The request for an edit: the operations as MessagePack.
#[derive(Debug, Clone, PartialEq, Eq)]
pub struct EditRequest {
    pub operations: BinaryData,
}

impl EditRequest {
    /// The request for the given operations.
    pub fn for_operations(operations: &Operations) -> (res: Result<EditRequest, RemoteError>)
        ensures
            match res {
                Ok(request) => operations@.len() <= u32::MAX && request.operations@ == message(
                    operations@,
                ),
                Err(e) => operations@.len() > u32::MAX && e is LoadingError,
            },
    {
        match operations.to_message_pack() {
            Ok(bytes) => Ok(EditRequest { operations: BinaryData::from_data(bytes) }),
            Err(_) => Err(RemoteError::LoadingError("Too many operations".to_owned())),
        }
    }

    /// The operations of the request.
    pub fn operations(&self) -> (res: Result<Operations, RemoteError>)
        ensures
            match res {
                Ok(operations) => read_message(self.operations@) matches Some(items)
                    && operations@ == known(items) && operations.unknown() == lossy_texts(
                    unknown(items),
                ),
                Err(e) => read_message(self.operations@) is None && e is LoadingError,
            },
    {
        match Operations::from_slice(self.operations.get().as_slice()) {
            Ok(operations) => Ok(operations),
            Err(_) => Err(RemoteError::LoadingError("The operations cannot be read".to_owned())),
        }
    }
}

} // verus!
