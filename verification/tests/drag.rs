use nestix_native_appkit::drag::{
    decide_operation, drag_modifiers, image_candidate, image_file_type, image_pasteboard_type,
    native_operation, native_operations, operation_from_native, operations_from_native,
    pasteboard_types, should_consult_callback, CallbackAnswer, DragDataTypes, DragOperation,
    DragOperations, DropTargetStacks, ImageFormat, PasteboardTypeNames,
};

fn names() -> PasteboardTypeNames {
    PasteboardTypeNames {
        file_url: "public.file-url".to_string(),
        png: "public.png".to_string(),
        tiff: "public.tiff".to_string(),
        string: "public.utf8-plain-text".to_string(),
    }
}

#[test]
fn operation_sets_round_trip_through_native_masks() {
    for copy in [false, true] {
        for moves in [false, true] {
            for link in [false, true] {
                let value = DragOperations { copy, moves, link };
                assert_eq!(operations_from_native(native_operations(value)), value);
            }
        }
    }
    assert_eq!(
        native_operations(DragOperations { copy: true, moves: true, link: true }),
        19
    );
    assert_eq!(
        operations_from_native(usize::MAX),
        DragOperations { copy: true, moves: true, link: true }
    );
}

#[test]
fn single_operations_round_trip_and_move_wins() {
    for op in [None, Some(DragOperation::Copy), Some(DragOperation::Move), Some(DragOperation::Link)] {
        assert_eq!(operation_from_native(native_operation(op)), op);
    }
    assert_eq!(native_operation(Some(DragOperation::Move)), 16);
    assert_eq!(operation_from_native(1 | 2 | 16), Some(DragOperation::Move));
    assert_eq!(operation_from_native(1 | 2), Some(DragOperation::Copy));
    assert_eq!(operation_from_native(4), None);
}

#[test]
fn pasteboard_types_are_classified() {
    let types: Vec<String> = ["public.file-url", "image/webp", "unknown"]
        .iter()
        .map(|t| t.to_string())
        .collect();
    assert_eq!(
        pasteboard_types(&names(), &types),
        DragDataTypes { files: true, image: true, text: false }
    );
    let types: Vec<String> = ["public.utf8-plain-text", "com.compuserve.gif"]
        .iter()
        .map(|t| t.to_string())
        .collect();
    assert_eq!(
        pasteboard_types(&names(), &types),
        DragDataTypes { files: false, image: true, text: true }
    );
    assert_eq!(
        pasteboard_types(&names(), &[]),
        DragDataTypes { files: false, image: false, text: false }
    );
}

#[test]
fn drop_targets_decide_their_operation() {
    let files = DragDataTypes { files: true, image: false, text: false };
    let none = DragDataTypes { files: false, image: false, text: false };
    let copy_only = DragOperations { copy: true, moves: false, link: false };
    assert!(should_consult_callback(true, files));
    assert!(!should_consult_callback(false, files));
    assert!(!should_consult_callback(true, none));
    assert_eq!(
        decide_operation(true, files, copy_only, CallbackAnswer::NoCallback, DragOperation::Copy),
        Some(DragOperation::Copy)
    );
    assert_eq!(
        decide_operation(true, files, copy_only, CallbackAnswer::NoCallback, DragOperation::Move),
        None
    );
    assert_eq!(
        decide_operation(
            true,
            files,
            copy_only,
            CallbackAnswer::Answered(None),
            DragOperation::Copy
        ),
        None
    );
    assert_eq!(
        decide_operation(
            false,
            files,
            copy_only,
            CallbackAnswer::Answered(Some(DragOperation::Copy)),
            DragOperation::Copy
        ),
        None
    );
    assert_eq!(
        decide_operation(
            true,
            none,
            copy_only,
            CallbackAnswer::Answered(Some(DragOperation::Copy)),
            DragOperation::Copy
        ),
        None
    );
}

#[test]
fn image_types_map_to_system_identifiers() {
    assert_eq!(image_file_type("image/png"), "public.png");
    assert_eq!(image_file_type("IMAGE/PNG"), "public.png");
    assert_eq!(image_file_type("image/Tiff"), "public.tiff");
    assert_eq!(image_file_type("image/jpg"), "public.jpeg");
    assert_eq!(image_file_type("image/jpeg"), "public.jpeg");
    assert_eq!(image_file_type("image/gif"), "com.compuserve.gif");
    assert_eq!(image_file_type("image/webp"), "image/webp");
    assert_eq!(image_pasteboard_type(&names(), "image/PNG"), "public.png");
    assert_eq!(image_pasteboard_type(&names(), "image/jpg"), "public.jpeg");
    assert_eq!(image_pasteboard_type(&names(), "image/heic"), "image/heic");
}

#[test]
fn image_candidates_prefer_png_then_tiff_jpeg_gif() {
    assert_eq!(image_candidate(true, true, true, true), Some(ImageFormat::Png));
    assert_eq!(image_candidate(false, true, true, true), Some(ImageFormat::Tiff));
    assert_eq!(image_candidate(false, false, true, true), Some(ImageFormat::Jpeg));
    assert_eq!(image_candidate(false, false, false, true), Some(ImageFormat::Gif));
    assert_eq!(image_candidate(false, false, false, false), None);
    assert_eq!(ImageFormat::Jpeg.media_type(), "image/jpeg");
    assert_eq!(ImageFormat::Jpeg.suggested_name(), "image.jpg");
    assert_eq!(ImageFormat::Tiff.suggested_name(), "image.tiff");
}

#[test]
fn drag_modifiers_read_the_event_flags() {
    let m = drag_modifiers((1 << 20) | (1 << 19));
    assert!(m.primary && m.alt && !m.shift);
    let m = drag_modifiers(1 << 17);
    assert!(!m.primary && !m.alt && m.shift);
    let m = drag_modifiers(1 << 18);
    assert!(!m.primary && !m.alt && !m.shift);
}

#[test]
fn the_latest_drop_target_of_a_view_is_active() {
    let mut stacks = DropTargetStacks::new();
    assert_eq!(stacks.active_target(7), None);
    stacks.register(7, 1);
    stacks.register(7, 2);
    stacks.register(8, 3);
    assert_eq!(stacks.active_target(7), Some(2));
    assert_eq!(stacks.active_target(8), Some(3));
    assert!(!stacks.unregister(7, 2));
    assert_eq!(stacks.active_target(7), Some(1));
    assert!(stacks.unregister(7, 1));
    assert_eq!(stacks.active_target(7), None);
    assert!(!stacks.unregister(7, 1));
    assert_eq!(stacks.active_target(8), Some(3));
}
