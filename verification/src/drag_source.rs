//! The source side of a drag: which items a drag carries for its content,
//! whether it starts, and how it ends.
use vstd::prelude::*;

use crate::drag::{
    image_file_type, image_file_type_of, image_pasteboard_type, image_pasteboard_type_of,
    operation_from_native, operation_of_mask, DragOperation, PasteboardTypeNames,
};

verus! {

/// The image a drag carries: its media type and the file name suggested for
/// it. Its bytes stay with the caller.
#[derive(Debug, Clone)]
pub struct DragImageInfo {
    pub media_type: String,
    pub suggested_name: String,
}

/// One item of a drag.
#[derive(Debug, Clone)]
pub enum DragItem {
    /// A pasteboard item holding the file URL.
    FileUrl(String),
    /// A pasteboard item holding the text, under the string type, and the
    /// image's bytes, under the given pasteboard type.
    Content { text: Option<String>, image_type: Option<String> },
    /// A file promise of the given file type and file name.
    FilePromise { file_type: String, name: String },
}

/// A drag item as the text it holds.
pub enum DragItemView {
    FileUrl(Seq<char>),
    Content { text: Option<Seq<char>>, image_type: Option<Seq<char>> },
    FilePromise { file_type: Seq<char>, name: Seq<char> },
}

/// The text of an optional string.
pub open spec fn opt_view(s: Option<String>) -> Option<Seq<char>> {
    match s {
        Some(v) => Some(v@),
        None => None,
    }
}

impl DragItem {
    pub open spec fn item_view(self) -> DragItemView {
        match self {
            DragItem::FileUrl(u) => DragItemView::FileUrl(u@),
            DragItem::Content { text, image_type } => DragItemView::Content {
                text: opt_view(text),
                image_type: opt_view(image_type),
            },
            DragItem::FilePromise { file_type, name } => DragItemView::FilePromise {
                file_type: file_type@,
                name: name@,
            },
        }
    }
}

/// The file type of the text's file promise.
pub const TEXT_PROMISE_TYPE: &'static str = "public.utf8-plain-text";

/// The file name of the text's file promise.
pub const TEXT_PROMISE_NAME: &'static str = "nestix.txt";

/// The file URL items of a drag: one per file whose URL could be written,
/// in order.
pub open spec fn file_url_items(urls: Seq<Option<String>>) -> Seq<DragItemView>
    decreases urls.len(),
{
    if urls.len() == 0 {
        Seq::empty()
    } else {
        let rest = file_url_items(urls.drop_last());
        match urls.last() {
            Some(u) => rest.push(DragItemView::FileUrl(u@)),
            None => rest,
        }
    }
}

/// The items a drag carries: the file URLs; then one item with the text and
/// the image, if there is either; then a file promise for the image; then a
/// file promise for the text.
pub open spec fn planned_items(
    names: PasteboardTypeNames,
    urls: Seq<Option<String>>,
    image: Option<DragImageInfo>,
    text: Option<String>,
) -> Seq<DragItemView> {
    let content: Seq<DragItemView> = if image is Some || text is Some {
        seq![
            DragItemView::Content {
                text: opt_view(text),
                image_type: match image {
                    Some(i) => Some(image_pasteboard_type_of(names, i.media_type@)),
                    None => None,
                },
            },
        ]
    } else {
        Seq::empty()
    };
    let image_promise: Seq<DragItemView> = match image {
        Some(i) => seq![
            DragItemView::FilePromise {
                file_type: image_file_type_of(i.media_type@),
                name: i.suggested_name@,
            },
        ],
        None => Seq::empty(),
    };
    let text_promise: Seq<DragItemView> = match text {
        Some(_) => seq![
            DragItemView::FilePromise { file_type: TEXT_PROMISE_TYPE@, name: TEXT_PROMISE_NAME@ },
        ],
        None => Seq::empty(),
    };
    file_url_items(urls) + content + image_promise + text_promise
}

/// A drag first carries one URL item per file that has a URL; after them, when
/// it carries text or an image, one item holding the text and the image under
/// its pasteboard type; then, for an image, a file promise of the image's
/// file type under its suggested name; and last, for text, a file promise of
/// plain UTF-8 text named `nestix.txt`.
pub proof fn law_planned_items(
    names: PasteboardTypeNames,
    urls: Seq<Option<String>>,
    image: Option<DragImageInfo>,
    text: Option<String>,
)
    ensures
        ({
            let items = planned_items(names, urls, image, text);
            let n = file_url_items(urls).len();
            let c = if image is Some || text is Some {
                1int
            } else {
                0int
            };
            let m = if image is Some {
                1int
            } else {
                0int
            };
            &&& items.len() == n + c + m + (if text is Some {
                1int
            } else {
                0int
            })
            &&& forall|j: int| 0 <= j < n ==> #[trigger] items[j] is FileUrl
            &&& c == 1 ==> items[n as int] == (DragItemView::Content {
                text: opt_view(text),
                image_type: match image {
                    Some(i) => Some(image_pasteboard_type_of(names, i.media_type@)),
                    None => None,
                },
            })
            &&& image is Some ==> items[n + c] == (DragItemView::FilePromise {
                file_type: image_file_type_of(image.unwrap().media_type@),
                name: image.unwrap().suggested_name@,
            })
            &&& text is Some ==> items[items.len() - 1] == (DragItemView::FilePromise {
                file_type: "public.utf8-plain-text"@,
                name: "nestix.txt"@,
            })
        }),
{
    lemma_file_url_items(urls);
}

proof fn lemma_file_url_items(urls: Seq<Option<String>>)
    ensures
        forall|j: int| 0 <= j < file_url_items(urls).len() ==> #[trigger] file_url_items(urls)[j] is FileUrl,
    decreases urls.len(),
{
    if urls.len() > 0 {
        lemma_file_url_items(urls.drop_last());
    }
}

/// The items a drag carries for its content (see `planned_items`). `urls`
/// holds, for each file, its file URL when one could be made.
pub fn dragging_items(
    names: &PasteboardTypeNames,
    urls: &[Option<String>],
    image: Option<&DragImageInfo>,
    text: Option<&String>,
) -> (r: Vec<DragItem>)
    ensures
        r@.map_values(|i: DragItem| i.item_view()) == planned_items(
            *names,
            urls@,
            match image {
                Some(i) => Some(*i),
                None => None,
            },
            match text {
                Some(t) => Some(*t),
                None => None,
            },
        ),
{
    let mut items: Vec<DragItem> = Vec::new();
    let mut i: usize = 0;
    proof {
        assert(urls@.take(0) =~= Seq::<Option<String>>::empty());
        assert(items@.map_values(|i: DragItem| i.item_view()) =~= Seq::<DragItemView>::empty());
    }
    while i < urls.len()
        invariant
            i <= urls@.len(),
            items@.map_values(|i: DragItem| i.item_view()) == file_url_items(
                urls@.take(i as int),
            ),
        decreases urls@.len() - i,
    {
        let ghost before = items@;
        proof {
            assert(urls@.take(i + 1).drop_last() =~= urls@.take(i as int));
            assert(urls@.take(i + 1).last() == urls@[i as int]);
        }
        match &urls[i] {
            Some(u) => {
                items.push(DragItem::FileUrl(u.clone()));
                proof {
                    assert(items@.map_values(|i: DragItem| i.item_view()) =~= before.map_values(
                        |i: DragItem| i.item_view(),
                    ).push(DragItemView::FileUrl(u@)));
                }
            },
            None => {},
        }
        i += 1;
    }
    proof {
        assert(urls@.take(i as int) =~= urls@);
    }
    let ghost files = items@.map_values(|i: DragItem| i.item_view());
    if image.is_some() || text.is_some() {
        let text_copy = match text {
            Some(t) => Some(t.clone()),
            None => None,
        };
        let image_type = match image {
            Some(img) => Some(image_pasteboard_type(names, img.media_type.as_str())),
            None => None,
        };
        let ghost before = items@;
        items.push(DragItem::Content { text: text_copy, image_type });
        proof {
            assert(items@.map_values(|i: DragItem| i.item_view()) =~= before.map_values(
                |i: DragItem| i.item_view(),
            ).push(items@.last().item_view()));
        }
    }
    let ghost with_content = items@.map_values(|i: DragItem| i.item_view());
    match image {
        Some(img) => {
            let ghost before = items@;
            items.push(
                DragItem::FilePromise {
                    file_type: image_file_type(img.media_type.as_str()).to_owned(),
                    name: img.suggested_name.clone(),
                },
            );
            proof {
                assert(items@.map_values(|i: DragItem| i.item_view()) =~= before.map_values(
                    |i: DragItem| i.item_view(),
                ).push(items@.last().item_view()));
            }
        },
        None => {},
    }
    let ghost with_image = items@.map_values(|i: DragItem| i.item_view());
    match text {
        Some(_) => {
            let ghost before = items@;
            items.push(
                DragItem::FilePromise {
                    file_type: TEXT_PROMISE_TYPE.to_owned(),
                    name: TEXT_PROMISE_NAME.to_owned(),
                },
            );
            proof {
                assert(items@.map_values(|i: DragItem| i.item_view()) =~= before.map_values(
                    |i: DragItem| i.item_view(),
                ).push(items@.last().item_view()));
            }
        },
        None => {},
    }
    proof {
        let img = match image {
            Some(i) => Some(*i),
            None => None::<DragImageInfo>,
        };
        let txt = match text {
            Some(t) => Some(*t),
            None => None::<String>,
        };
        assert(items@.map_values(|i: DragItem| i.item_view()) =~= planned_items(
            *names,
            urls@,
            img,
            txt,
        ));
    }
    items
}

/// Why a drag did not start.
#[derive(Debug, Clone, Copy, PartialEq, Eq, Structural)]
pub enum DragSourceError {
    /// The drag content is empty, or yields no item.
    EmptyContent,
    /// The window has no current pointer event to start the drag from.
    NoPointerEvent,
}

/// Whether a drag starts: not for empty content, not without a current
/// pointer event, and not when the content yields no item.
pub fn drag_start(content_empty: bool, has_event: bool, item_count: usize) -> (r: Result<
    (),
    DragSourceError,
>)
    ensures
        r == (if content_empty {
            Err(DragSourceError::EmptyContent)
        } else if !has_event {
            Err(DragSourceError::NoPointerEvent)
        } else if item_count == 0 {
            Err(DragSourceError::EmptyContent)
        } else {
            Ok(())
        }),
{
    if content_empty {
        Err(DragSourceError::EmptyContent)
    } else if !has_event {
        Err(DragSourceError::NoPointerEvent)
    } else if item_count == 0 {
        Err(DragSourceError::EmptyContent)
    } else {
        Ok(())
    }
}

/// How a drag ended, from the source's side.
#[derive(Debug, Clone, Copy, PartialEq, Eq, Structural)]
pub enum DragSourceOutcome {
    Dropped(DragOperation),
    Cancelled,
}

/// How a drag that ended with the `NSDragOperation` mask `mask` ended: the
/// operation it reports, or cancelled when it reports none.
pub fn drag_outcome(mask: usize) -> (r: DragSourceOutcome)
    ensures
        r == (match operation_of_mask(mask) {
            Some(op) => DragSourceOutcome::Dropped(op),
            None => DragSourceOutcome::Cancelled,
        }),
{
    match operation_from_native(mask) {
        Some(op) => DragSourceOutcome::Dropped(op),
        None => DragSourceOutcome::Cancelled,
    }
}

} // verus!
