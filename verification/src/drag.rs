//! The model behind `DropTarget` and `DragSource`: drag operations and their
//! `NSDragOperation` masks, the data types a pasteboard offers, the operation
//! a drop target accepts, image type names, and the stacks of drop targets
//! registered per native view.
use vstd::prelude::*;

use crate::menu::{MODIFIER_COMMAND, MODIFIER_OPTION, MODIFIER_SHIFT};
use crate::strings::{ascii_lowercase, ascii_lowercase_eq, starts_with, str_eq};

verus! {

/// `NSDragOperationCopy`.
pub const NS_DRAG_OPERATION_COPY: usize = 1;

/// `NSDragOperationLink`.
pub const NS_DRAG_OPERATION_LINK: usize = 2;

/// `NSDragOperationMove`.
pub const NS_DRAG_OPERATION_MOVE: usize = 16;

/// The modifier keys held during a drag.
#[derive(Debug, Clone, Copy, PartialEq, Eq, Structural)]
pub struct DragModifiers {
    /// Command.
    pub primary: bool,
    pub shift: bool,
    /// Option.
    pub alt: bool,
}

/// The drag modifiers held according to the event modifier `flags`.
pub fn drag_modifiers(flags: usize) -> (r: DragModifiers)
    ensures
        r.primary == (flags & MODIFIER_COMMAND != 0),
        r.shift == (flags & MODIFIER_SHIFT != 0),
        r.alt == (flags & MODIFIER_OPTION != 0),
{
    DragModifiers {
        primary: flags & MODIFIER_COMMAND != 0,
        shift: flags & MODIFIER_SHIFT != 0,
        alt: flags & MODIFIER_OPTION != 0,
    }
}

/// An operation that a drop performs.
#[derive(Debug, Clone, Copy, PartialEq, Eq, Structural)]
pub enum DragOperation {
    Copy,
    Move,
    Link,
}

/// A set of drag operations.
#[derive(Debug, Clone, Copy, PartialEq, Eq, Structural)]
pub struct DragOperations {
    pub copy: bool,
    pub moves: bool,
    pub link: bool,
}

impl DragOperations {
    /// Whether `operation` is in the set.
    pub open spec fn has(self, operation: DragOperation) -> bool {
        match operation {
            DragOperation::Copy => self.copy,
            DragOperation::Move => self.moves,
            DragOperation::Link => self.link,
        }
    }

    /// Whether `operation` is in the set.
    pub fn contains_operation(&self, operation: DragOperation) -> (r: bool)
        ensures
            r == self.has(operation),
    {
        match operation {
            DragOperation::Copy => self.copy,
            DragOperation::Move => self.moves,
            DragOperation::Link => self.link,
        }
    }
}

/// The bit of an operation in an `NSDragOperation` mask.
pub open spec fn operation_bit(operation: DragOperation) -> usize {
    match operation {
        DragOperation::Copy => NS_DRAG_OPERATION_COPY,
        DragOperation::Move => NS_DRAG_OPERATION_MOVE,
        DragOperation::Link => NS_DRAG_OPERATION_LINK,
    }
}

/// The `NSDragOperation` mask of a set of operations.
pub open spec fn operations_mask(value: DragOperations) -> usize {
    (if value.copy {
        NS_DRAG_OPERATION_COPY
    } else {
        0usize
    }) | (if value.moves {
        NS_DRAG_OPERATION_MOVE
    } else {
        0usize
    }) | (if value.link {
        NS_DRAG_OPERATION_LINK
    } else {
        0usize
    })
}

/// Whether `mask` holds the bit `bit`.
pub open spec fn mask_has(mask: usize, bit: usize) -> bool {
    mask & bit == bit
}

/// The `NSDragOperation` mask that offers exactly the operations in `value`.
pub fn native_operations(value: DragOperations) -> (mask: usize)
    ensures
        mask == operations_mask(value),
        mask_has(mask, NS_DRAG_OPERATION_COPY) == value.copy,
        mask_has(mask, NS_DRAG_OPERATION_MOVE) == value.moves,
        mask_has(mask, NS_DRAG_OPERATION_LINK) == value.link,
{
    let c: usize = if value.copy {
        NS_DRAG_OPERATION_COPY
    } else {
        0
    };
    let m: usize = if value.moves {
        NS_DRAG_OPERATION_MOVE
    } else {
        0
    };
    let l: usize = if value.link {
        NS_DRAG_OPERATION_LINK
    } else {
        0
    };
    let result = c | m | l;
    assert((c | m | l) & 1usize == 1usize <==> c == 1usize) by (bit_vector)
        requires
            c == 0usize || c == 1usize,
            m == 0usize || m == 16usize,
            l == 0usize || l == 2usize,
    ;
    assert((c | m | l) & 16usize == 16usize <==> m == 16usize) by (bit_vector)
        requires
            c == 0usize || c == 1usize,
            m == 0usize || m == 16usize,
            l == 0usize || l == 2usize,
    ;
    assert((c | m | l) & 2usize == 2usize <==> l == 2usize) by (bit_vector)
        requires
            c == 0usize || c == 1usize,
            m == 0usize || m == 16usize,
            l == 0usize || l == 2usize,
    ;
    result
}

/// The operations that an `NSDragOperation` mask offers.
pub fn operations_from_native(mask: usize) -> (value: DragOperations)
    ensures
        value.copy == mask_has(mask, NS_DRAG_OPERATION_COPY),
        value.moves == mask_has(mask, NS_DRAG_OPERATION_MOVE),
        value.link == mask_has(mask, NS_DRAG_OPERATION_LINK),
{
    DragOperations {
        copy: mask & NS_DRAG_OPERATION_COPY == NS_DRAG_OPERATION_COPY,
        moves: mask & NS_DRAG_OPERATION_MOVE == NS_DRAG_OPERATION_MOVE,
        link: mask & NS_DRAG_OPERATION_LINK == NS_DRAG_OPERATION_LINK,
    }
}

/// The `NSDragOperation` of a single operation; no operation is
/// `NSDragOperationNone` (0).
pub fn native_operation(value: Option<DragOperation>) -> (raw: usize)
    ensures
        raw == match value {
            Some(op) => operation_bit(op),
            None => 0,
        },
{
    match value {
        Some(DragOperation::Copy) => NS_DRAG_OPERATION_COPY,
        Some(DragOperation::Move) => NS_DRAG_OPERATION_MOVE,
        Some(DragOperation::Link) => NS_DRAG_OPERATION_LINK,
        None => 0,
    }
}

/// The operation a drag session ended with: move wins over copy, copy over
/// link; a mask with none of them means no operation.
pub open spec fn operation_of_mask(mask: usize) -> Option<DragOperation> {
    if mask_has(mask, NS_DRAG_OPERATION_MOVE) {
        Some(DragOperation::Move)
    } else if mask_has(mask, NS_DRAG_OPERATION_COPY) {
        Some(DragOperation::Copy)
    } else if mask_has(mask, NS_DRAG_OPERATION_LINK) {
        Some(DragOperation::Link)
    } else {
        None
    }
}

/// The operation that an `NSDragOperation` mask reports.
pub fn operation_from_native(mask: usize) -> (r: Option<DragOperation>)
    ensures
        r == operation_of_mask(mask),
{
    if mask & NS_DRAG_OPERATION_MOVE == NS_DRAG_OPERATION_MOVE {
        Some(DragOperation::Move)
    } else if mask & NS_DRAG_OPERATION_COPY == NS_DRAG_OPERATION_COPY {
        Some(DragOperation::Copy)
    } else if mask & NS_DRAG_OPERATION_LINK == NS_DRAG_OPERATION_LINK {
        Some(DragOperation::Link)
    } else {
        None
    }
}

/// Reading back the mask of a set of operations gives the same set.
pub proof fn law_operations_round_trip(value: DragOperations)
    ensures
        ({
            let mask = operations_mask(value);
            &&& mask_has(mask, NS_DRAG_OPERATION_COPY) == value.copy
            &&& mask_has(mask, NS_DRAG_OPERATION_MOVE) == value.moves
            &&& mask_has(mask, NS_DRAG_OPERATION_LINK) == value.link
        }),
{
    let c = value.copy;
    let m = value.moves;
    let l = value.link;
    assert(((if c { 1usize } else { 0usize }) | (if m { 16usize } else { 0usize }) | (if l {
        2usize
    } else {
        0usize
    })) & 1usize == 1usize <==> c) by (bit_vector);
    assert(((if c { 1usize } else { 0usize }) | (if m { 16usize } else { 0usize }) | (if l {
        2usize
    } else {
        0usize
    })) & 16usize == 16usize <==> m) by (bit_vector);
    assert(((if c { 1usize } else { 0usize }) | (if m { 16usize } else { 0usize }) | (if l {
        2usize
    } else {
        0usize
    })) & 2usize == 2usize <==> l) by (bit_vector);
}

/// Reading back the `NSDragOperation` of a single operation gives the same
/// operation.
pub proof fn law_operation_round_trip(value: Option<DragOperation>)
    ensures
        operation_of_mask(
            match value {
                Some(op) => operation_bit(op),
                None => 0,
            },
        ) == value,
{
    assert(1usize & 16usize != 16usize && 1usize & 1usize == 1usize) by (bit_vector);
    assert(16usize & 16usize == 16usize) by (bit_vector);
    assert(2usize & 16usize != 16usize && 2usize & 1usize != 1usize && 2usize & 2usize == 2usize)
        by (bit_vector);
    assert(0usize & 16usize != 16usize && 0usize & 1usize != 1usize && 0usize & 2usize != 2usize)
        by (bit_vector);
}

/// A set of drag data types.
#[derive(Debug, Clone, Copy, PartialEq, Eq, Structural)]
pub struct DragDataTypes {
    pub files: bool,
    pub image: bool,
    pub text: bool,
}

impl DragDataTypes {
    /// Whether the set is empty.
    pub fn is_empty(&self) -> (r: bool)
        ensures
            r == (!self.files && !self.image && !self.text),
    {
        !self.files && !self.image && !self.text
    }

    /// The types in both sets.
    pub fn intersection(&self, other: DragDataTypes) -> (r: DragDataTypes)
        ensures
            r.files == (self.files && other.files),
            r.image == (self.image && other.image),
            r.text == (self.text && other.text),
    {
        DragDataTypes {
            files: self.files && other.files,
            image: self.image && other.image,
            text: self.text && other.text,
        }
    }
}

/// The names of the AppKit pasteboard types that a drop reads.
#[derive(Debug, Clone)]
pub struct PasteboardTypeNames {
    /// `NSPasteboardTypeFileURL`.
    pub file_url: String,
    /// `NSPasteboardTypePNG`.
    pub png: String,
    /// `NSPasteboardTypeTIFF`.
    pub tiff: String,
    /// `NSPasteboardTypeString`.
    pub string: String,
}

/// The kind of data a pasteboard type carries, if a drop reads it.
#[derive(Debug, Clone, Copy, PartialEq, Eq, Structural)]
pub enum DragDataType {
    Files,
    Image,
    Text,
}

/// Whether `kind` names an image: PNG, TIFF, JPEG, GIF, or any `image/` type.
pub open spec fn is_image_type(names: PasteboardTypeNames, kind: Seq<char>) -> bool {
    ||| kind == names.png@
    ||| kind == names.tiff@
    ||| kind == "public.jpeg"@
    ||| kind == "com.compuserve.gif"@
    ||| (kind.len() >= 6 && kind.take(6) == "image/"@)
}

/// The data type of the pasteboard type `kind`: the file URL type first, then
/// the image types, then the string type.
pub open spec fn classify(names: PasteboardTypeNames, kind: Seq<char>) -> Option<DragDataType> {
    if kind == names.file_url@ {
        Some(DragDataType::Files)
    } else if is_image_type(names, kind) {
        Some(DragDataType::Image)
    } else if kind == names.string@ {
        Some(DragDataType::Text)
    } else {
        None
    }
}

/// Whether one of `types` carries the data type `t`.
pub open spec fn offers(names: PasteboardTypeNames, types: Seq<String>, t: DragDataType) -> bool {
    exists|i: int| 0 <= i < types.len() && classify(names, #[trigger] types[i]@) == Some(t)
}

/// The data type of one pasteboard type.
pub fn classify_pasteboard_type(names: &PasteboardTypeNames, kind: &String) -> (r: Option<
    DragDataType,
>)
    ensures
        r == classify(*names, kind@),
{
    proof {
        reveal_strlit("public.jpeg");
        reveal_strlit("com.compuserve.gif");
        reveal_strlit("image/");
    }
    if *kind == names.file_url {
        Some(DragDataType::Files)
    } else if *kind == names.png || *kind == names.tiff || str_eq(kind.as_str(), "public.jpeg")
        || str_eq(kind.as_str(), "com.compuserve.gif") || starts_with(kind.as_str(), "image/") {
        Some(DragDataType::Image)
    } else if *kind == names.string {
        Some(DragDataType::Text)
    } else {
        None
    }
}

/// The data types that a pasteboard with the types `types` offers.
pub fn pasteboard_types(names: &PasteboardTypeNames, types: &[String]) -> (r: DragDataTypes)
    ensures
        r.files == offers(*names, types@, DragDataType::Files),
        r.image == offers(*names, types@, DragDataType::Image),
        r.text == offers(*names, types@, DragDataType::Text),
{
    let mut result = DragDataTypes { files: false, image: false, text: false };
    let mut i: usize = 0;
    while i < types.len()
        invariant
            i <= types@.len(),
            result.files == exists|j: int|
                0 <= j < i && classify(*names, #[trigger] types@[j]@) == Some(DragDataType::Files),
            result.image == exists|j: int|
                0 <= j < i && classify(*names, #[trigger] types@[j]@) == Some(DragDataType::Image),
            result.text == exists|j: int|
                0 <= j < i && classify(*names, #[trigger] types@[j]@) == Some(DragDataType::Text),
        decreases types@.len() - i,
    {
        let kind = classify_pasteboard_type(names, &types[i]);
        match kind {
            Some(DragDataType::Files) => {
                result = DragDataTypes { files: true, ..result };
            },
            Some(DragDataType::Image) => {
                result = DragDataTypes { image: true, ..result };
            },
            Some(DragDataType::Text) => {
                result = DragDataTypes { text: true, ..result };
            },
            None => {},
        }
        i += 1;
    }
    result
}

/// What a drop target's `on_enter`/`on_over` callback answered.
#[derive(Debug, Clone, Copy, PartialEq, Eq, Structural)]
pub enum CallbackAnswer {
    /// The target has no callback for this phase.
    NoCallback,
    /// The callback returned this operation (or declined with `None`).
    Answered(Option<DragOperation>),
}

/// Whether the drop target consults its callback at all: only when it is
/// enabled and the offer carries a type it accepts.
pub open spec fn consults_callback(enabled: bool, available: DragDataTypes) -> bool {
    enabled && (available.files || available.image || available.text)
}

/// The operation a drop target accepts.
pub open spec fn decided_operation(
    enabled: bool,
    available: DragDataTypes,
    allowed: DragOperations,
    answer: CallbackAnswer,
    default_operation: DragOperation,
) -> Option<DragOperation> {
    if !consults_callback(enabled, available) {
        None
    } else {
        let proposed = match answer {
            CallbackAnswer::NoCallback => Some(default_operation),
            CallbackAnswer::Answered(op) => op,
        };
        match proposed {
            Some(op) => if allowed.has(op) {
                Some(op)
            } else {
                None
            },
            None => None,
        }
    }
}

/// Whether a drop target consults its callback for this offer.
pub fn should_consult_callback(enabled: bool, available: DragDataTypes) -> (r: bool)
    ensures
        r == consults_callback(enabled, available),
{
    enabled && !available.is_empty()
}

/// The operation a drop target accepts: none when it is disabled or the offer
/// carries no accepted type; otherwise the callback's answer, or the default
/// operation when there is no callback, provided the source allows it.
pub fn decide_operation(
    enabled: bool,
    available: DragDataTypes,
    allowed: DragOperations,
    answer: CallbackAnswer,
    default_operation: DragOperation,
) -> (r: Option<DragOperation>)
    ensures
        r == decided_operation(enabled, available, allowed, answer, default_operation),
{
    if !should_consult_callback(enabled, available) {
        return None;
    }
    let proposed = match answer {
        CallbackAnswer::NoCallback => Some(default_operation),
        CallbackAnswer::Answered(op) => op,
    };
    match proposed {
        Some(op) => if allowed.contains_operation(op) {
            Some(op)
        } else {
            None
        },
        None => None,
    }
}

/// The uniform type identifier that a file promise for an image uses: PNG,
/// TIFF, JPEG and GIF media types (matched without regard to ASCII case) map
/// to their system identifiers; any other media type is used as it is.
pub open spec fn image_file_type_of(media_type: Seq<char>) -> Seq<char> {
    let lower = ascii_lowercase(media_type);
    if lower == "image/png"@ {
        "public.png"@
    } else if lower == "image/tiff"@ {
        "public.tiff"@
    } else if lower == "image/jpeg"@ || lower == "image/jpg"@ {
        "public.jpeg"@
    } else if lower == "image/gif"@ {
        "com.compuserve.gif"@
    } else {
        media_type
    }
}

/// The uniform type identifier of an image's file promise.
pub fn image_file_type(media_type: &str) -> (r: &str)
    ensures
        r@ == image_file_type_of(media_type@),
{
    if ascii_lowercase_eq(media_type, "image/png") {
        "public.png"
    } else if ascii_lowercase_eq(media_type, "image/tiff") {
        "public.tiff"
    } else if ascii_lowercase_eq(media_type, "image/jpeg") || ascii_lowercase_eq(
        media_type,
        "image/jpg",
    ) {
        "public.jpeg"
    } else if ascii_lowercase_eq(media_type, "image/gif") {
        "com.compuserve.gif"
    } else {
        media_type
    }
}

/// The pasteboard type an image is written under: PNG and TIFF use AppKit's
/// types, JPEG and GIF their system identifiers; any other media type is used
/// as it is.
pub open spec fn image_pasteboard_type_of(names: PasteboardTypeNames, media_type: Seq<char>) -> Seq<
    char,
> {
    let lower = ascii_lowercase(media_type);
    if lower == "image/png"@ {
        names.png@
    } else if lower == "image/tiff"@ {
        names.tiff@
    } else if lower == "image/jpeg"@ || lower == "image/jpg"@ {
        "public.jpeg"@
    } else if lower == "image/gif"@ {
        "com.compuserve.gif"@
    } else {
        media_type
    }
}

/// The pasteboard type an image is written under.
pub fn image_pasteboard_type(names: &PasteboardTypeNames, media_type: &str) -> (r: String)
    ensures
        r@ == image_pasteboard_type_of(*names, media_type@),
{
    if ascii_lowercase_eq(media_type, "image/png") {
        names.png.clone()
    } else if ascii_lowercase_eq(media_type, "image/tiff") {
        names.tiff.clone()
    } else if ascii_lowercase_eq(media_type, "image/jpeg") || ascii_lowercase_eq(
        media_type,
        "image/jpg",
    ) {
        "public.jpeg".to_owned()
    } else if ascii_lowercase_eq(media_type, "image/gif") {
        "com.compuserve.gif".to_owned()
    } else {
        media_type.to_owned()
    }
}

/// Image media types, in any ASCII case, map to their system identifiers:
/// PNG to `public.png`, TIFF to `public.tiff`, JPEG (`image/jpeg` or
/// `image/jpg`) to `public.jpeg` and GIF to `com.compuserve.gif`; on the
/// pasteboard PNG and TIFF use AppKit's own types. Any other media type is
/// used as it is.
pub proof fn law_image_type_names(names: PasteboardTypeNames, media_type: Seq<char>)
    ensures
        ascii_lowercase(media_type) == "image/png"@ ==> image_file_type_of(media_type)
            == "public.png"@ && image_pasteboard_type_of(names, media_type) == names.png@,
        ascii_lowercase(media_type) == "image/tiff"@ ==> image_file_type_of(media_type)
            == "public.tiff"@ && image_pasteboard_type_of(names, media_type) == names.tiff@,
        ascii_lowercase(media_type) == "image/jpeg"@ || ascii_lowercase(media_type)
            == "image/jpg"@ ==> image_file_type_of(media_type) == "public.jpeg"@
            && image_pasteboard_type_of(names, media_type) == "public.jpeg"@,
        ascii_lowercase(media_type) == "image/gif"@ ==> image_file_type_of(media_type)
            == "com.compuserve.gif"@ && image_pasteboard_type_of(names, media_type)
            == "com.compuserve.gif"@,
        ascii_lowercase(media_type) != "image/png"@ && ascii_lowercase(media_type)
            != "image/tiff"@ && ascii_lowercase(media_type) != "image/jpeg"@ && ascii_lowercase(
            media_type,
        ) != "image/jpg"@ && ascii_lowercase(media_type) != "image/gif"@ ==> image_file_type_of(
            media_type,
        ) == media_type && image_pasteboard_type_of(names, media_type) == media_type,
{
    reveal_strlit("image/png");
    reveal_strlit("image/tiff");
    reveal_strlit("image/jpeg");
    reveal_strlit("image/jpg");
    reveal_strlit("image/gif");
    assert("image/tiff"@[6] != "image/png"@[6]);
    assert("image/jpeg"@[6] != "image/png"@[6] && "image/jpeg"@[6] != "image/tiff"@[6]);
    assert("image/jpg"@[6] != "image/png"@[6] && "image/jpg"@[6] != "image/tiff"@[6]);
    assert("image/gif"@[6] != "image/png"@[6] && "image/gif"@[6] != "image/tiff"@[6]);
    assert("image/gif"@[6] != "image/jpeg"@[6] && "image/gif"@[6] != "image/jpg"@[6]);
}

/// An image format that a drop reads from the pasteboard.
#[derive(Debug, Clone, Copy, PartialEq, Eq, Structural)]
pub enum ImageFormat {
    Png,
    Tiff,
    Jpeg,
    Gif,
}

impl ImageFormat {
    /// The media type reported for an image of this format.
    pub fn media_type(&self) -> (r: &'static str)
        ensures
            r@ == (match self {
                ImageFormat::Png => "image/png"@,
                ImageFormat::Tiff => "image/tiff"@,
                ImageFormat::Jpeg => "image/jpeg"@,
                ImageFormat::Gif => "image/gif"@,
            }),
    {
        match self {
            ImageFormat::Png => "image/png",
            ImageFormat::Tiff => "image/tiff",
            ImageFormat::Jpeg => "image/jpeg",
            ImageFormat::Gif => "image/gif",
        }
    }

    /// The file name suggested for an image of this format.
    pub fn suggested_name(&self) -> (r: &'static str)
        ensures
            r@ == (match self {
                ImageFormat::Png => "image.png"@,
                ImageFormat::Tiff => "image.tiff"@,
                ImageFormat::Jpeg => "image.jpg"@,
                ImageFormat::Gif => "image.gif"@,
            }),
    {
        match self {
            ImageFormat::Png => "image.png",
            ImageFormat::Tiff => "image.tiff",
            ImageFormat::Jpeg => "image.jpg",
            ImageFormat::Gif => "image.gif",
        }
    }
}

/// The format a drop reads an image in: the first of PNG, TIFF, JPEG and GIF
/// that the pasteboard holds data for.
pub fn image_candidate(has_png: bool, has_tiff: bool, has_jpeg: bool, has_gif: bool) -> (r: Option<
    ImageFormat,
>)
    ensures
        r == if has_png {
            Some(ImageFormat::Png)
        } else if has_tiff {
            Some(ImageFormat::Tiff)
        } else if has_jpeg {
            Some(ImageFormat::Jpeg)
        } else if has_gif {
            Some(ImageFormat::Gif)
        } else {
            None
        },
{
    if has_png {
        Some(ImageFormat::Png)
    } else if has_tiff {
        Some(ImageFormat::Tiff)
    } else if has_jpeg {
        Some(ImageFormat::Jpeg)
    } else if has_gif {
        Some(ImageFormat::Gif)
    } else {
        None
    }
}


/// `ids` without the entries equal to `id`, in order.
pub open spec fn without_id(ids: Seq<u64>, id: u64) -> Seq<u64>
    decreases ids.len(),
{
    if ids.len() == 0 {
        Seq::empty()
    } else {
        let rest = without_id(ids.drop_last(), id);
        if ids.last() == id {
            rest
        } else {
            rest.push(ids.last())
        }
    }
}

proof fn lemma_without_absent_id(ids: Seq<u64>, id: u64)
    requires
        !ids.contains(id),
    ensures
        without_id(ids, id) == ids,
    decreases ids.len(),
{
    if ids.len() > 0 {
        let d = ids.drop_last();
        assert(!d.contains(id)) by {
            if d.contains(id) {
                let i = choose|i: int| 0 <= i < d.len() && d[i] == id;
                assert(ids[i] == id);
            }
        }
        lemma_without_absent_id(d, id);
        assert(ids.last() != id) by {
            assert(ids[ids.len() - 1] == ids.last());
        }
        assert(d.push(ids.last()) =~= ids);
    }
}

/// The drop targets registered on one native view, the most recent last.
#[derive(Debug)]
pub struct DropStack {
    pub view: usize,
    pub ids: Vec<u64>,
}

/// The drop targets registered per native view. Only the most recent target
/// of a view handles its drags.
#[derive(Debug)]
pub struct DropTargetStacks {
    pub stacks: Vec<DropStack>,
}

/// Every view has at most one stack.
pub open spec fn views_unique(stacks: Seq<DropStack>) -> bool {
    forall|i: int, j: int|
        0 <= i < j < stacks.len() ==> #[trigger] stacks[i].view != #[trigger] stacks[j].view
}

proof fn lemma_stack_index_unique(stacks: Seq<DropStack>, view: usize, a: int, b: int)
    requires
        views_unique(stacks),
        stack_index(stacks, view, a),
        stack_index(stacks, view, b),
    ensures
        a == b,
{
    if a < b {
        assert(stacks[a].view != stacks[b].view);
    } else if b < a {
        assert(stacks[b].view != stacks[a].view);
    }
}

/// The position of the stack of `view` in `stacks`.
pub open spec fn stack_index(stacks: Seq<DropStack>, view: usize, i: int) -> bool {
    0 <= i < stacks.len() && stacks[i].view == view
}

/// The targets registered on `view`, the most recent last (empty when none).
pub open spec fn stack_of(stacks: Seq<DropStack>, view: usize) -> Seq<u64> {
    if exists|i: int| stack_index(stacks, view, i) {
        stacks[choose|i: int| stack_index(stacks, view, i)].ids@
    } else {
        Seq::empty()
    }
}

/// The target that handles drags on `view`: the most recently registered one.
pub open spec fn active_of(stacks: Seq<DropStack>, view: usize) -> Option<u64> {
    let s = stack_of(stacks, view);
    if s.len() == 0 {
        None
    } else {
        Some(s.last())
    }
}

impl DropTargetStacks {
    /// Every view has at most one stack, and no stack is empty.
    pub open spec fn wf(&self) -> bool {
        &&& forall|i: int, j: int|
            0 <= i < j < self.stacks@.len() ==> #[trigger] self.stacks@[i].view
                != #[trigger] self.stacks@[j].view
        &&& forall|i: int| 0 <= i < self.stacks@.len() ==> #[trigger] self.stacks@[i].ids@.len() > 0
    }

    pub fn new() -> (s: Self)
        ensures
            s.wf(),
            forall|view: usize| #[trigger] stack_of(s.stacks@, view) == Seq::<u64>::empty(),
    {
        DropTargetStacks { stacks: Vec::new() }
    }

    fn find(&self, view: usize) -> (r: Option<usize>)
        requires
            self.wf(),
        ensures
            match r {
                Some(i) => stack_index(self.stacks@, view, i as int) && stack_of(self.stacks@, view)
                    == self.stacks@[i as int].ids@,
                None => !(exists|i: int| stack_index(self.stacks@, view, i)) && stack_of(
                    self.stacks@,
                    view,
                ) == Seq::<u64>::empty(),
            },
    {
        let mut i: usize = 0;
        while i < self.stacks.len()
            invariant
                self.wf(),
                i <= self.stacks@.len(),
                forall|j: int| 0 <= j < i ==> #[trigger] self.stacks@[j].view != view,
            decreases self.stacks@.len() - i,
        {
            if self.stacks[i].view == view {
                proof {
                    assert(stack_index(self.stacks@, view, i as int));
                    let k = choose|k: int| stack_index(self.stacks@, view, k);
                    lemma_stack_index_unique(self.stacks@, view, k, i as int);
                }
                return Some(i);
            }
            i += 1;
        }
        None
    }

    /// The target that handles drags on `view`.
    pub fn active_target(&self, view: usize) -> (r: Option<u64>)
        requires
            self.wf(),
        ensures
            r == active_of(self.stacks@, view),
    {
        match self.find(view) {
            Some(i) => {
                let n = self.stacks[i].ids.len();
                Some(self.stacks[i].ids[n - 1])
            },
            None => None,
        }
    }

    /// Registers the target `id` on `view`; it becomes the active target.
    #[verifier::spinoff_prover]
    pub fn register(&mut self, view: usize, id: u64)
        requires
            old(self).wf(),
        ensures
            final(self).wf(),
            stack_of(final(self).stacks@, view) == stack_of(old(self).stacks@, view).push(id),
            forall|other: usize|
                other != view ==> #[trigger] stack_of(final(self).stacks@, other) == stack_of(
                    old(self).stacks@,
                    other,
                ),
    {
        let ghost before = self.stacks@;
        match self.find(view) {
            Some(i) => {
                let mut stack = self.stacks.remove(i);
                stack.ids.push(id);
                self.stacks.insert(i, stack);
                proof {
                    let after = self.stacks@;
                    assert(after =~= before.update(i as int, stack));
                    assert forall|a: int, b: int|
                        0 <= a < b < after.len() implies #[trigger] after[a].view
                        != #[trigger] after[b].view by {
                        assert(before[a].view != before[b].view);
                    }
                    assert forall|k: int| 0 <= k < after.len() implies #[trigger] after[k].ids@.len()
                        > 0 by {
                        if k != i {
                            assert(after[k] == before[k]);
                        }
                    }
                    lemma_stack_of_at(after, view, i as int);
                    assert forall|other: usize| other != view implies #[trigger] stack_of(
                        after,
                        other,
                    ) == stack_of(before, other) by {
                        lemma_stack_of_update(before, after, i as int, other);
                    }
                }
            },
            None => {
                let mut ids: Vec<u64> = Vec::new();
                ids.push(id);
                let stack = DropStack { view, ids };
                self.stacks.push(stack);
                proof {
                    let after = self.stacks@;
                    assert forall|a: int, b: int|
                        0 <= a < b < after.len() implies #[trigger] after[a].view
                        != #[trigger] after[b].view by {
                        if b == after.len() - 1 {
                            assert(!stack_index(before, view, a));
                        } else {
                            assert(before[a].view != before[b].view);
                        }
                    }
                    lemma_stack_of_at(after, view, after.len() - 1);
                    assert(ids@ =~= Seq::<u64>::empty().push(id));
                    assert forall|other: usize| other != view implies #[trigger] stack_of(
                        after,
                        other,
                    ) == stack_of(before, other) by {
                        lemma_stack_of_push(before, stack, other);
                    }
                }
            },
        }
    }

    /// Unregisters the target `id` from `view`, returning whether it was the
    /// last target of that view (then the view stops accepting drags).
    #[verifier::spinoff_prover]
    pub fn unregister(&mut self, view: usize, id: u64) -> (is_last: bool)
        requires
            old(self).wf(),
        ensures
            final(self).wf(),
            stack_of(final(self).stacks@, view) == without_id(stack_of(old(self).stacks@, view), id),
            is_last == (stack_of(old(self).stacks@, view).len() > 0 && without_id(
                stack_of(old(self).stacks@, view),
                id,
            ).len() == 0),
            forall|other: usize|
                other != view ==> #[trigger] stack_of(final(self).stacks@, other) == stack_of(
                    old(self).stacks@,
                    other,
                ),
    {
        let ghost before = self.stacks@;
        match self.find(view) {
            Some(i) => {
                let mut stack = self.stacks.remove(i);
                let ghost old_ids = stack.ids@;
                remove_id(&mut stack.ids, id);
                if stack.ids.len() == 0 {
                    proof {
                        let after = self.stacks@;
                        assert(after =~= before.remove(i as int));
                        assert forall|a: int, b: int|
                            0 <= a < b < after.len() implies #[trigger] after[a].view
                            != #[trigger] after[b].view by {
                            let a0 = if a < i { a } else { a + 1 };
                            let b0 = if b < i { b } else { b + 1 };
                            assert(before[a0].view != before[b0].view);
                        }
                        assert forall|k: int| 0 <= k < after.len() implies #[trigger] after[k].ids@.len()
                            > 0 by {
                            let k0 = if k < i { k } else { k + 1 };
                            assert(after[k] == before[k0]);
                        }
                        assert(!(exists|k: int| stack_index(after, view, k))) by {
                            if exists|k: int| stack_index(after, view, k) {
                                let k = choose|k: int| stack_index(after, view, k);
                                let k0 = if k < i { k } else { k + 1 };
                                assert(after[k] == before[k0]);
                                if k0 < i {
                                    assert(before[k0].view != before[i as int].view);
                                } else {
                                    assert(before[i as int].view != before[k0].view);
                                }
                            }
                        }
                        assert(stack_of(after, view) =~= Seq::<u64>::empty());
                        assert forall|other: usize| other != view implies #[trigger] stack_of(
                            after,
                            other,
                        ) == stack_of(before, other) by {
                            lemma_stack_of_remove(before, i as int, other);
                        }
                    }
                    true
                } else {
                    self.stacks.insert(i, stack);
                    proof {
                        let after = self.stacks@;
                        assert(after =~= before.update(i as int, stack));
                        assert forall|a: int, b: int|
                            0 <= a < b < after.len() implies #[trigger] after[a].view
                            != #[trigger] after[b].view by {
                            assert(before[a].view != before[b].view);
                        }
                        assert forall|k: int| 0 <= k < after.len() implies #[trigger] after[k].ids@.len()
                            > 0 by {
                            if k != i {
                                assert(after[k] == before[k]);
                            }
                        }
                        lemma_stack_of_at(after, view, i as int);
                        assert forall|other: usize| other != view implies #[trigger] stack_of(
                            after,
                            other,
                        ) == stack_of(before, other) by {
                            lemma_stack_of_update(before, after, i as int, other);
                        }
                    }
                    false
                }
            },
            None => {
                proof {
                    assert(without_id(Seq::<u64>::empty(), id) =~= Seq::<u64>::empty());
                }
                false
            },
        }
    }
}

/// Removes every entry equal to `id`, keeping the others in order.
fn remove_id(ids: &mut Vec<u64>, id: u64)
    ensures
        final(ids)@ == without_id(old(ids)@, id),
{
    let ghost orig = ids@;
    let mut kept: Vec<u64> = Vec::new();
    let mut i: usize = 0;
    proof {
        assert(orig.take(0) =~= Seq::<u64>::empty());
    }
    while i < ids.len()
        invariant
            ids@ == orig,
            i <= orig.len(),
            kept@ == without_id(orig.take(i as int), id),
        decreases orig.len() - i,
    {
        proof {
            assert(orig.take(i + 1).drop_last() =~= orig.take(i as int));
        }
        if ids[i] != id {
            kept.push(ids[i]);
        }
        i += 1;
    }
    proof {
        assert(orig.take(i as int) =~= orig);
    }
    *ids = kept;
}

proof fn lemma_stack_of_at(stacks: Seq<DropStack>, view: usize, i: int)
    requires
        stack_index(stacks, view, i),
        forall|a: int, b: int|
            0 <= a < b < stacks.len() ==> #[trigger] stacks[a].view != #[trigger] stacks[b].view,
    ensures
        stack_of(stacks, view) == stacks[i].ids@,
{
    let k = choose|k: int| stack_index(stacks, view, k);
    if k < i {
        assert(stacks[k].view != stacks[i].view);
    } else if i < k {
        assert(stacks[i].view != stacks[k].view);
    }
}

proof fn lemma_stack_of_update(before: Seq<DropStack>, after: Seq<DropStack>, i: int, other: usize)
    requires
        0 <= i < before.len(),
        after.len() == before.len(),
        after[i].view == before[i].view,
        other != before[i].view,
        forall|j: int| 0 <= j < before.len() && j != i ==> #[trigger] after[j] == before[j],
        views_unique(before),
        views_unique(after),
    ensures
        stack_of(after, other) == stack_of(before, other),
{
    if exists|k: int| stack_index(before, other, k) {
        let k = choose|k: int| stack_index(before, other, k);
        assert(stack_index(after, other, k));
    }
    if exists|k: int| stack_index(after, other, k) {
        let k = choose|k: int| stack_index(after, other, k);
        assert(stack_index(before, other, k));
    }
    if exists|k: int| stack_index(before, other, k) {
        let kb = choose|k: int| stack_index(before, other, k);
        let ka = choose|k: int| stack_index(after, other, k);
        assert(after[kb] == before[kb]);
        assert(stack_index(after, other, kb));
        lemma_stack_index_unique(after, other, ka, kb);
    }
}

proof fn lemma_stack_of_push(before: Seq<DropStack>, stack: DropStack, other: usize)
    requires
        other != stack.view,
        views_unique(before),
        views_unique(before.push(stack)),
    ensures
        stack_of(before.push(stack), other) == stack_of(before, other),
{
    let after = before.push(stack);
    if exists|k: int| stack_index(before, other, k) {
        let k = choose|k: int| stack_index(before, other, k);
        assert(stack_index(after, other, k));
    }
    if exists|k: int| stack_index(after, other, k) {
        let k = choose|k: int| stack_index(after, other, k);
        assert(k < before.len());
        assert(stack_index(before, other, k));
    }
    if exists|k: int| stack_index(before, other, k) {
        let kb = choose|k: int| stack_index(before, other, k);
        let ka = choose|k: int| stack_index(after, other, k);
        assert(after[kb] == before[kb]);
        assert(stack_index(after, other, kb));
        lemma_stack_index_unique(after, other, ka, kb);
    }
}

proof fn lemma_stack_of_remove(before: Seq<DropStack>, i: int, other: usize)
    requires
        0 <= i < before.len(),
        other != before[i].view,
        views_unique(before),
        views_unique(before.remove(i)),
    ensures
        stack_of(before.remove(i), other) == stack_of(before, other),
{
    let after = before.remove(i);
    if exists|k: int| stack_index(before, other, k) {
        let k = choose|k: int| stack_index(before, other, k);
        let k1 = if k < i { k } else { k - 1 };
        assert(after[k1] == before[k]);
        assert(stack_index(after, other, k1));
    }
    if exists|k: int| stack_index(after, other, k) {
        let k = choose|k: int| stack_index(after, other, k);
        let k0 = if k < i { k } else { k + 1 };
        assert(after[k] == before[k0]);
        assert(stack_index(before, other, k0));
    }
    if exists|k: int| stack_index(before, other, k) {
        let kb = choose|k: int| stack_index(before, other, k);
        let ka = choose|k: int| stack_index(after, other, k);
        let kb1 = if kb < i { kb } else { kb - 1 };
        assert(after[kb1] == before[kb]);
        assert(stack_index(after, other, kb1));
        lemma_stack_index_unique(after, other, ka, kb1);
    }
}

/// Each pasteboard type is classified by what it names: the file URL type is
/// files; the PNG and TIFF types, `public.jpeg`, `com.compuserve.gif` and
/// every `image/` type are images (unless the same name is the file URL
/// type); the string type is text when it is neither; anything else carries
/// no data a drop reads.
pub proof fn law_pasteboard_type_classes(names: PasteboardTypeNames, kind: Seq<char>)
    ensures
        kind == names.file_url@ ==> classify(names, kind) == Some(DragDataType::Files),
        kind != names.file_url@ && (kind == names.png@ || kind == names.tiff@ || kind
            == "public.jpeg"@ || kind == "com.compuserve.gif"@ || (kind.len() >= 6 && kind.take(6)
            == "image/"@)) ==> classify(names, kind) == Some(DragDataType::Image),
        classify(names, kind) == Some(DragDataType::Image) ==> kind != names.file_url@ && (kind
            == names.png@ || kind == names.tiff@ || kind == "public.jpeg"@ || kind
            == "com.compuserve.gif"@ || (kind.len() >= 6 && kind.take(6) == "image/"@)),
        classify(names, kind) == Some(DragDataType::Text) ==> kind == names.string@ && kind
            != names.file_url@ && kind != names.png@ && kind != names.tiff@,
        kind != names.file_url@ && kind != names.png@ && kind != names.tiff@ && kind
            != names.string@ && kind != "public.jpeg"@ && kind != "com.compuserve.gif"@ && !(
        kind.len() >= 6 && kind.take(6) == "image/"@) ==> classify(names, kind) is None,
{
}

/// A pasteboard that carries the PNG or TIFF type offers an image, one that
/// carries the file URL type offers files, whatever else it carries.
pub proof fn law_offered_types(names: PasteboardTypeNames, types: Seq<String>, i: int)
    requires
        0 <= i < types.len(),
    ensures
        types[i]@ == names.file_url@ ==> offers(names, types, DragDataType::Files),
        (types[i]@ == names.tiff@ || types[i]@ == names.png@) && types[i]@ != names.file_url@
            ==> offers(names, types, DragDataType::Image),
{
    if types[i]@ == names.file_url@ {
        assert(classify(names, types[i]@) == Some(DragDataType::Files));
    }
    if (types[i]@ == names.tiff@ || types[i]@ == names.png@) && types[i]@ != names.file_url@ {
        assert(classify(names, types[i]@) == Some(DragDataType::Image));
    }
}

/// A drop target only ever accepts an operation the drag source allows, and
/// only when it is enabled and the offer carries a type it accepts. When it
/// consults its callback, an allowed answer is accepted as it is, a declined
/// one is not, and without a callback the default operation is accepted when
/// it is allowed.
pub proof fn law_decided_operation_is_allowed(
    enabled: bool,
    available: DragDataTypes,
    allowed: DragOperations,
    answer: CallbackAnswer,
    default_operation: DragOperation,
    op: DragOperation,
)
    ensures
        decided_operation(enabled, available, allowed, answer, default_operation) == Some(op)
            ==> allowed.has(op) && enabled && (available.files || available.image
            || available.text),
        decided_operation(enabled, available, allowed, answer, default_operation) == Some(op)
            ==> answer == CallbackAnswer::Answered(Some(op)) || (answer
            == CallbackAnswer::NoCallback && op == default_operation),
        enabled && (available.files || available.image || available.text) && allowed.has(op) && (
        answer == CallbackAnswer::Answered(Some(op)) || (answer == CallbackAnswer::NoCallback
            && op == default_operation)) ==> decided_operation(
            enabled,
            available,
            allowed,
            answer,
            default_operation,
        ) == Some(op),
        answer == CallbackAnswer::Answered(None) ==> decided_operation(
            enabled,
            available,
            allowed,
            answer,
            default_operation,
        ) is None,
{
}

/// Registering a target makes it the active target of its view.
pub proof fn law_register_activates(before: Seq<DropStack>, after: Seq<DropStack>, view: usize, id: u64)
    requires
        stack_of(after, view) == stack_of(before, view).push(id),
    ensures
        active_of(after, view) == Some(id),
{
}

/// Unregistering the most recently registered target of a view, when that id
/// was not registered there before, makes the previous target active again.
pub proof fn law_unregister_restores(stack: Seq<u64>, id: u64)
    requires
        !stack.contains(id),
    ensures
        without_id(stack.push(id), id) == stack,
{
    assert(stack.push(id).drop_last() =~= stack);
    lemma_without_absent_id(stack, id);
}

} // verus!
