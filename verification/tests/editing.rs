use glycin::editing::{
    change_orientation, check_orientable, clip, EditingError, EditingFrame,
};
use glycin::memory_format::{ExtendedMemoryFormat, MemoryFormat};
use glycin::operations::{Operation, OperationId, Operations};
use glycin::orientation::{Orientation, Rotation};

fn gray_frame(width: u32, height: u32, stride: u32) -> EditingFrame {
    EditingFrame {
        width,
        height,
        stride,
        memory_format: ExtendedMemoryFormat::Basic(MemoryFormat::G8),
    }
}

/// 3 pixels wide, 2 pixels high:
/// 1 2 3
/// 4 5 6
fn sample() -> (Vec<u8>, EditingFrame) {
    (vec![1, 2, 3, 4, 5, 6], gray_frame(3, 2, 3))
}

fn turned(orientation: Orientation) -> (Vec<u8>, EditingFrame) {
    let (buf, mut frame) = sample();
    assert!(frame.check_fits(buf.len()));
    assert!(check_orientable(&frame, orientation));
    let new = change_orientation(buf, &mut frame, orientation);
    (new, frame)
}

#[test]
fn clip_top_left_pixel_of_two_by_two() {
    // 2x2 RGB image
    let buf = vec![10, 11, 12, 20, 21, 22, 30, 31, 32, 40, 41, 42];
    let mut frame = EditingFrame {
        width: 2,
        height: 2,
        stride: 6,
        memory_format: ExtendedMemoryFormat::Basic(MemoryFormat::R8g8b8),
    };
    let new = clip(buf, &mut frame, (0, 0, 1, 1)).unwrap();
    assert_eq!(new, vec![10, 11, 12]);
    assert_eq!(frame.width, 1);
    assert_eq!(frame.height, 1);
    assert_eq!(frame.stride, 3);
}

#[test]
fn clip_with_padding() {
    // rows of 3 gray pixels with 2 bytes of padding
    let buf = vec![1, 2, 3, 99, 99, 4, 5, 6, 99, 99, 7, 8, 9, 99, 99];
    let mut frame = gray_frame(3, 3, 5);
    let new = clip(buf, &mut frame, (1, 1, 2, 2)).unwrap();
    assert_eq!(new, vec![5, 6, 8, 9]);
    assert_eq!(frame, gray_frame(2, 2, 2));
}

#[test]
fn clip_of_nothing() {
    let (buf, mut frame) = sample();
    let new = clip(buf, &mut frame, (3, 2, 0, 0)).unwrap();
    assert_eq!(new, Vec::<u8>::new());
    assert_eq!(frame, gray_frame(0, 0, 0));
}

#[test]
fn clip_outside_of_frame() {
    let (buf, mut frame) = sample();
    assert_eq!(
        clip(buf.clone(), &mut frame, (2, 0, 2, 1)),
        Err(EditingError::OutOfBounds)
    );
    assert_eq!(
        clip(buf.clone(), &mut frame, (0, 1, 1, 2)),
        Err(EditingError::OutOfBounds)
    );
    assert_eq!(
        clip(buf, &mut frame, (u32::MAX, 0, 1, 1)),
        Err(EditingError::OutOfBounds)
    );
    // the frame stays as it was
    assert_eq!(frame, gray_frame(3, 2, 3));
}

#[test]
fn clip_of_short_buffer() {
    let mut frame = gray_frame(3, 2, 3);
    assert_eq!(
        clip(vec![1, 2, 3, 4, 5], &mut frame, (0, 0, 1, 1)),
        Err(EditingError::OutOfBounds)
    );
    let mut narrow = gray_frame(3, 2, 2);
    assert_eq!(
        clip(vec![1, 2, 3, 4, 5, 6], &mut narrow, (0, 0, 1, 1)),
        Err(EditingError::OutOfBounds)
    );
}

#[test]
fn identity_leaves_buffer_and_padding() {
    let buf = vec![1, 2, 3, 99, 4, 5, 6, 99];
    let mut frame = gray_frame(3, 2, 4);
    let new = change_orientation(buf.clone(), &mut frame, Orientation::Id);
    assert_eq!(new, buf);
    assert_eq!(frame, gray_frame(3, 2, 4));
}

#[test]
fn quarter_turns() {
    // counter-clockwise quarter turn
    let (new, frame) = turned(Orientation::Rotation90);
    assert_eq!(new, vec![3, 6, 2, 5, 1, 4]);
    assert_eq!(frame, gray_frame(2, 3, 2));

    let (new, frame) = turned(Orientation::Rotation180);
    assert_eq!(new, vec![6, 5, 4, 3, 2, 1]);
    assert_eq!(frame, gray_frame(3, 2, 3));

    // clockwise quarter turn
    let (new, frame) = turned(Orientation::Rotation270);
    assert_eq!(new, vec![4, 1, 5, 2, 6, 3]);
    assert_eq!(frame, gray_frame(2, 3, 2));
}

#[test]
fn mirrored_turns() {
    let (new, frame) = turned(Orientation::Mirrored);
    assert_eq!(new, vec![3, 2, 1, 6, 5, 4]);
    assert_eq!(frame, gray_frame(3, 2, 3));

    // transposed
    let (new, frame) = turned(Orientation::MirroredRotation90);
    assert_eq!(new, vec![1, 4, 2, 5, 3, 6]);
    assert_eq!(frame, gray_frame(2, 3, 2));

    // upside down
    let (new, _) = turned(Orientation::MirroredRotation180);
    assert_eq!(new, vec![4, 5, 6, 1, 2, 3]);

    let (new, frame) = turned(Orientation::MirroredRotation270);
    assert_eq!(new, vec![6, 3, 5, 2, 4, 1]);
    assert_eq!(frame, gray_frame(2, 3, 2));
}

#[test]
fn turn_drops_padding_and_keeps_pixels_together() {
    // 2x1 RGB image with padding
    let buf = vec![1, 2, 3, 4, 5, 6, 99, 99];
    let mut frame = EditingFrame {
        width: 2,
        height: 1,
        stride: 8,
        memory_format: ExtendedMemoryFormat::Basic(MemoryFormat::R8g8b8),
    };
    let new = change_orientation(buf, &mut frame, Orientation::Mirrored);
    assert_eq!(new, vec![4, 5, 6, 1, 2, 3]);
    assert_eq!(frame.stride, 6);
}

#[test]
fn turning_upright_twice_changes_nothing() {
    for value in 1..=8 {
        let orientation = Orientation::from_exif(value).unwrap();
        let (new, mut frame) = turned(orientation);
        let before = frame;
        let again = change_orientation(new.clone(), &mut frame, Orientation::Id);
        assert_eq!(again, new);
        assert_eq!(frame, before);
    }
}

#[test]
fn orientable_limit() {
    let wide = EditingFrame {
        width: 1,
        height: u32::MAX,
        stride: 16,
        memory_format: ExtendedMemoryFormat::Basic(MemoryFormat::R32g32b32a32Float),
    };
    assert!(!check_orientable(&wide, Orientation::Rotation90));
    assert!(check_orientable(&wide, Orientation::Rotation180));
}

#[test]
fn operations_in_their_order() {
    let (buf, mut frame) = sample();
    let operations = Operations::new(vec![
        Operation::Rotate(Rotation::_90),
        Operation::Clip((0, 1, 2, 2)),
        Operation::MirrorHorizontally,
    ]);
    // after the turn: 3 6 / 2 5 / 1 4, after the clip: 2 5 / 1 4
    let new = operations.apply(buf, &mut frame).unwrap();
    assert_eq!(new, vec![5, 2, 4, 1]);
    assert_eq!(frame, gray_frame(2, 2, 2));
    assert_eq!(
        operations.operation_ids(),
        vec![OperationId::Rotate, OperationId::Clip, OperationId::MirrorHorizontally]
    );
    assert!(operations.unknown_operations().is_empty());
}

#[test]
fn mirror_vertically() {
    let (buf, mut frame) = sample();
    let operations = Operations::new(vec![Operation::MirrorVertically]);
    assert_eq!(operations.apply(buf, &mut frame).unwrap(), vec![4, 5, 6, 1, 2, 3]);
}

#[test]
fn operations_stop_at_the_first_failure() {
    let (buf, mut frame) = sample();
    let operations = Operations::new(vec![
        Operation::Clip((0, 0, 2, 2)),
        Operation::Clip((0, 0, 3, 1)),
        Operation::MirrorHorizontally,
    ]);
    assert_eq!(operations.apply(buf, &mut frame), Err(EditingError::OutOfBounds));
    // the first clip was made
    assert_eq!(frame, gray_frame(2, 2, 2));
}

#[test]
fn no_operations_change_nothing() {
    let (buf, mut frame) = sample();
    let operations = Operations::new(vec![]);
    assert_eq!(operations.apply(buf.clone(), &mut frame).unwrap(), buf);
    assert_eq!(frame, gray_frame(3, 2, 3));
}

#[test]
fn operation_names() {
    for id in [
        OperationId::Clip,
        OperationId::MirrorHorizontally,
        OperationId::MirrorVertically,
        OperationId::Rotate,
    ] {
        assert_eq!(OperationId::from_name(id.as_str()), Some(id));
    }
    assert_eq!(OperationId::Rotate.as_str(), "Rotate");
    assert_eq!(OperationId::from_name("rotate"), None);
    assert_eq!(OperationId::from_name(""), None);
    assert_eq!(Operation::Clip((1, 2, 3, 4)).id(), OperationId::Clip);
}

#[test]
fn orientation_as_operations() {
    assert_eq!(Operations::new_orientation(Orientation::Id).operations().len(), 0);
    assert_eq!(
        Operations::new_orientation(Orientation::MirroredRotation90).operations(),
        &vec![Operation::MirrorHorizontally, Operation::Rotate(Rotation::_90)]
    );
    let mut operations = Operations::new(vec![Operation::Clip((0, 0, 1, 1))]);
    operations.prepend(Operations::new_orientation(Orientation::Rotation180));
    assert_eq!(
        operations.operations(),
        &vec![Operation::Rotate(Rotation::_180), Operation::Clip((0, 0, 1, 1))]
    );
    // the operations of an orientation turn the pixels as the orientation does
    for value in 1..=8 {
        let orientation = Orientation::from_exif(value).unwrap();
        let (buf, mut frame) = sample();
        let by_operations = Operations::new_orientation(orientation)
            .apply(buf, &mut frame)
            .unwrap();
        let (direct, direct_frame) = turned(orientation);
        assert_eq!(by_operations, direct);
        assert_eq!(frame, direct_frame);
    }
}
