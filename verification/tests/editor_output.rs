use glycin::editor_output::{
    ByteChange, ByteChanges, CompleteEditorOutput, Edit, EditOutcome, EditorOutputInfo,
    EncodedImage, EncodingOptions, InitializationDetails, SparseEdit, SparseEditorOutput,
};
use glycin::error::{Error, RemoteError};
use glycin::frame::BinaryData;

fn changes(pairs: &[(u64, u8)]) -> ByteChanges {
    ByteChanges::from_slice(pairs)
}

#[test]
fn byte_changes_from_pairs() {
    let list = changes(&[(3, 7), (0, 9)]);
    assert_eq!(
        list.changes,
        vec![
            ByteChange { offset: 3, new_value: 7 },
            ByteChange { offset: 0, new_value: 9 }
        ]
    );
    assert!(changes(&[]).changes.is_empty());
}

#[test]
fn byte_changes_are_made_in_their_order() {
    let mut data = vec![0, 1, 2, 3];
    let list = changes(&[(1, 10), (3, 30), (1, 11)]);
    assert!(list.fits(data.len()));
    list.apply(&mut data);
    assert_eq!(data, vec![0, 11, 2, 30]);
    assert!(!list.fits(3));
    assert!(list.fits(4));
}

#[test]
fn sparse_output_holds_exactly_one() {
    let sparse = SparseEditorOutput::byte_changes(changes(&[(1, 2)]));
    assert!(sparse.is_sparse());
    assert!(sparse.info().lossless);
    let (byte_changes, data, info) = sparse.into_parts();
    assert_eq!(byte_changes, Some(changes(&[(1, 2)])));
    assert_eq!(data, None);
    assert!(info.lossless);

    let complete = CompleteEditorOutput::new(BinaryData::from_data(vec![1, 2, 3]));
    assert!(!complete.info.lossless);
    let output = SparseEditorOutput::from_complete(complete);
    assert!(!output.is_sparse());
    let (byte_changes, data, info) = output.into_parts();
    assert_eq!(byte_changes, None);
    assert_eq!(data, Some(BinaryData::from_data(vec![1, 2, 3])));
    assert!(!info.lossless);
}

#[test]
fn sparse_output_from_the_wire() {
    let info = EditorOutputInfo { lossless: true };
    let data = BinaryData::from_data(vec![1]);
    let both = SparseEditorOutput::from_parts(Some(changes(&[])), Some(data.clone()), info);
    match both {
        Err(Error::RemoteError(RemoteError::InternalLoaderError(message))) => assert_eq!(
            message,
            "Sparse editor output with 'byte_changes' and 'data' returned."
        ),
        other => panic!("{other:?}"),
    }
    let neither = SparseEditorOutput::from_parts(None, None, info);
    match neither {
        Err(Error::RemoteError(RemoteError::InternalLoaderError(message))) => assert_eq!(
            message,
            "Sparse editor output with neither 'byte_changes' nor 'data' returned."
        ),
        other => panic!("{other:?}"),
    }
    let sparse = SparseEditorOutput::from_parts(Some(changes(&[(5, 6)])), None, info).unwrap();
    assert!(sparse.is_sparse());
    let complete = SparseEditorOutput::from_parts(None, Some(data.clone()), info).unwrap();
    assert_eq!(complete.into_parts(), (None, Some(data), info));
}

#[test]
fn sparse_edit_of_each_kind() {
    let sparse = SparseEditorOutput::byte_changes(changes(&[(30, 6)]));
    assert_eq!(
        SparseEdit::try_from(sparse),
        Ok(SparseEdit::Sparse(changes(&[(30, 6)])))
    );
    let complete = SparseEditorOutput::from_complete(CompleteEditorOutput::new_lossless(vec![9]));
    assert_eq!(
        SparseEdit::try_from(complete),
        Ok(SparseEdit::Complete(BinaryData::from_data(vec![9])))
    );
}

#[test]
fn sparse_edit_changes_the_file() {
    let mut file = vec![0u8; 40];
    file[30] = 1;
    let edit = SparseEdit::Sparse(changes(&[(30, 6)]));
    assert_eq!(edit.apply_to(&mut file), Ok(EditOutcome::Changed));
    assert_eq!(file[30], 6);
    assert_eq!(file.iter().filter(|x| **x != 0).count(), 1);
}

#[test]
fn complete_edit_leaves_the_file() {
    let mut file = vec![1, 2, 3];
    let edit = SparseEdit::Complete(BinaryData::from_data(vec![4, 5]));
    assert_eq!(edit.apply_to(&mut file), Ok(EditOutcome::Unchanged));
    assert_eq!(file, vec![1, 2, 3]);
}

#[test]
fn sparse_edit_beyond_the_file() {
    let mut file = vec![1, 2, 3];
    let edit = SparseEdit::Sparse(changes(&[(0, 9), (3, 8), (1, 7)]));
    assert!(matches!(
        edit.apply_to(&mut file),
        Err(Error::StdIoError { .. })
    ));
    // the change before the failure stays, the one behind it is not made
    assert_eq!(file, vec![9, 2, 3]);

    let mut file = vec![1, 2, 3];
    let edit = SparseEdit::Sparse(changes(&[(u64::MAX, 9)]));
    assert_eq!(edit.apply_to(&mut file), Err(Error::ConversionTooLarge));
    let edit = SparseEdit::Sparse(changes(&[(i64::MAX as u64, 9)]));
    assert!(matches!(
        edit.apply_to(&mut file),
        Err(Error::StdIoError { .. })
    ));
    assert_eq!(file, vec![1, 2, 3]);
}

#[test]
fn edit_of_the_host() {
    let edit = Edit::from_output(CompleteEditorOutput::new_lossless(vec![1, 2]));
    assert!(edit.is_lossless());
    assert_eq!(edit.data(), BinaryData::from_data(vec![1, 2]));
    let edit = Edit::from_output(CompleteEditorOutput::new(BinaryData::from_data(vec![])));
    assert!(!edit.is_lossless());
}

#[test]
fn defaults_of_the_wire_types() {
    assert!(!EditorOutputInfo::default().lossless);
    assert_eq!(InitializationDetails::default().base_dir, None);
    let options = EncodingOptions::default();
    assert_eq!((options.quality, options.compression), (None, None));
    let image = EncodedImage::new(BinaryData::from_data(vec![3, 2, 1]));
    assert_eq!(image.data_full(), vec![3, 2, 1]);
}

#[test]
fn writes_for_a_file() {
    let edit = SparseEdit::Sparse(changes(&[(0, 9), (2, 8), (1, 7)]));
    assert_eq!(edit.writes_for(3), (3, Ok(EditOutcome::Changed)));
    assert_eq!(edit.writes_for(100), (3, Ok(EditOutcome::Changed)));
    // the second change lies behind the end: the first is written
    let (writes, outcome) = edit.writes_for(2);
    assert_eq!(writes, 1);
    assert!(matches!(outcome, Err(Error::StdIoError { .. })));
    let (writes, outcome) = edit.writes_for(0);
    assert_eq!(writes, 0);
    assert!(matches!(outcome, Err(Error::StdIoError { .. })));

    let edit = SparseEdit::Sparse(changes(&[(1, 9), (u64::MAX, 8)]));
    assert_eq!(edit.writes_for(5), (1, Err(Error::ConversionTooLarge)));
    let edit = SparseEdit::Sparse(changes(&[]));
    assert_eq!(edit.writes_for(0), (0, Ok(EditOutcome::Changed)));
    let edit = SparseEdit::Complete(BinaryData::from_data(vec![1, 2, 3]));
    assert_eq!(edit.writes_for(3), (0, Ok(EditOutcome::Unchanged)));
}

#[test]
fn writes_agree_with_the_edit_in_memory() {
    let edit = SparseEdit::Sparse(changes(&[(0, 9), (3, 8), (1, 7)]));
    for len in 0..6usize {
        let mut file = vec![0u8; len];
        let outcome = edit.apply_to(&mut file);
        let (writes, planned) = edit.writes_for(len as u64);
        assert_eq!(outcome.is_ok(), planned.is_ok(), "{len}");
        let mut expected = vec![0u8; len];
        if let SparseEdit::Sparse(list) = &edit {
            for change in list.changes.iter().take(writes) {
                expected[change.offset as usize] = change.new_value;
            }
        }
        assert_eq!(file, expected, "{len}");
    }
}
