use nestix_native_appkit::drag::{DragDataType, DragOperation, PasteboardTypeNames};
use nestix_native_appkit::drag_source::{
    drag_outcome, drag_start, dragging_items, DragImageInfo, DragItem, DragSourceError,
    DragSourceOutcome,
};
use nestix_native_appkit::drop_session::{dropped_files, dropped_text, DragReadError, DropSession};

fn names() -> PasteboardTypeNames {
    PasteboardTypeNames {
        file_url: "public.file-url".to_string(),
        png: "public.png".to_string(),
        tiff: "public.tiff".to_string(),
        string: "public.utf8-plain-text".to_string(),
    }
}

fn describe(items: &[DragItem]) -> Vec<String> {
    items
        .iter()
        .map(|item| match item {
            DragItem::FileUrl(url) => format!("url {url}"),
            DragItem::Content { text, image_type } => {
                format!("content {:?} {:?}", text, image_type)
            }
            DragItem::FilePromise { file_type, name } => format!("promise {file_type} {name}"),
        })
        .collect()
}

#[test]
fn drags_carry_files_then_content_then_promises() {
    let image = DragImageInfo {
        media_type: "image/JPG".to_string(),
        suggested_name: "photo.jpg".to_string(),
    };
    let text = "hello".to_string();
    let urls = [
        Some("file:///a".to_string()),
        None,
        Some("file:///b".to_string()),
    ];
    let items = dragging_items(&names(), &urls, Some(&image), Some(&text));
    assert_eq!(
        describe(&items),
        vec![
            "url file:///a".to_string(),
            "url file:///b".to_string(),
            "content Some(\"hello\") Some(\"public.jpeg\")".to_string(),
            "promise public.jpeg photo.jpg".to_string(),
            "promise public.utf8-plain-text nestix.txt".to_string(),
        ]
    );
}

#[test]
fn drags_without_image_or_text_carry_only_files() {
    let items = dragging_items(&names(), &[Some("file:///a".to_string())], None, None);
    assert_eq!(describe(&items), vec!["url file:///a".to_string()]);
    let items = dragging_items(&names(), &[], None, None);
    assert!(items.is_empty());
    let image = DragImageInfo {
        media_type: "image/png".to_string(),
        suggested_name: "image.png".to_string(),
    };
    let items = dragging_items(&names(), &[], Some(&image), None);
    assert_eq!(
        describe(&items),
        vec![
            "content None Some(\"public.png\")".to_string(),
            "promise public.png image.png".to_string(),
        ]
    );
}

#[test]
fn drags_start_only_with_content_an_event_and_items() {
    assert_eq!(drag_start(true, true, 3), Err(DragSourceError::EmptyContent));
    assert_eq!(drag_start(false, false, 3), Err(DragSourceError::NoPointerEvent));
    assert_eq!(drag_start(false, true, 0), Err(DragSourceError::EmptyContent));
    assert_eq!(drag_start(false, true, 1), Ok(()));
}

#[test]
fn drags_end_with_the_reported_operation() {
    assert_eq!(drag_outcome(16), DragSourceOutcome::Dropped(DragOperation::Move));
    assert_eq!(drag_outcome(1), DragSourceOutcome::Dropped(DragOperation::Copy));
    assert_eq!(drag_outcome(0), DragSourceOutcome::Cancelled);
}

#[test]
fn drops_use_the_last_decided_operation() {
    let mut session = DropSession::new();
    assert!(!session.prepare());
    assert_eq!(session.record(Some(DragOperation::Link)), 2);
    assert_eq!(session.record(Some(DragOperation::Copy)), 1);
    assert!(session.prepare());
    assert_eq!(session.perform(), Some(DragOperation::Copy));
    assert_eq!(session.perform(), None);
    session.record(Some(DragOperation::Move));
    session.exit();
    assert!(!session.prepare());
    assert_eq!(session.perform(), None);
    assert_eq!(session.record(None), 0);
    assert!(!session.prepare());
}

#[test]
fn dropped_data_is_read_or_reported_unavailable() {
    assert_eq!(
        dropped_files(&[None, Some("/a".to_string()), Some("/b".to_string())]),
        Ok(vec!["/a".to_string(), "/b".to_string()])
    );
    assert_eq!(
        dropped_files(&[None]),
        Err(DragReadError::Unavailable(DragDataType::Files))
    );
    assert_eq!(
        dropped_files(&[]),
        Err(DragReadError::Unavailable(DragDataType::Files))
    );
    assert_eq!(dropped_text(Some("x".to_string())), Ok("x".to_string()));
    assert_eq!(
        dropped_text(None),
        Err(DragReadError::Unavailable(DragDataType::Text))
    );
}
