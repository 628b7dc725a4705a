//! The frames of a recording.

use vstd::prelude::*;
use crate::vdom::VDocument;
use crate::vdom::VDocumentView;
use crate::vdom::VNode;
use crate::vdom::VNodeView;
use crate::vdom::VStyleSheet;
use crate::vdom::VStyleSheetView;

verus! {

/// One step of a recording. Each variant has a fixed tag, by which the wire
/// format tells the variants apart.
#[derive(Debug, Clone, PartialEq, Eq)]
pub enum Frame {
    Timestamp(TimestampData),
    Keyframe(KeyframeData),
    ViewportResized(ViewportResizedData),
    ScrollOffsetChanged(ScrollOffsetChangedData),
    MouseMoved(MouseMovedData),
    MouseClicked(MouseClickedData),
    KeyPressed(KeyPressedData),
    ElementFocused(ElementFocusedData),
    TextSelectionChanged(TextSelectionChangedData),
    DomNodeAdded(DomNodeAddedData),
    DomNodeRemoved(DomNodeRemovedData),
    DomAttributeChanged(DomAttributeChangedData),
    DomAttributeRemoved(DomAttributeRemovedData),
    DomTextChanged(DomTextChangedData),
    DomNodeResized(DomNodeResizedData),
    DomNodePropertyChanged(DomNodePropertyChangedData),
    Asset(AssetData),
    AdoptedStyleSheetsChanged(AdoptedStyleSheetsChangedData),
    NewAdoptedStyleSheet(NewAdoptedStyleSheetData),
    ElementScrolled(ElementScrolledData),
    ElementBlurred(ElementBlurredData),
    WindowFocused(WindowFocusedData),
    WindowBlurred(WindowBlurredData),
    StyleSheetRuleInserted(StyleSheetRuleInsertedData),
    StyleSheetRuleDeleted(StyleSheetRuleDeletedData),
    StyleSheetReplaced(StyleSheetReplacedData),
    CanvasChanged(CanvasChangedData),
    DomNodePropertyTextChanged(DomNodePropertyTextChangedData),
    RecordingMetadata(RecordingMetadataData),
    CacheManifest(CacheManifestData),
    PlaybackConfig(PlaybackConfigData),
    AssetReference(AssetReferenceData),
    Heartbeat,
}

/// The value that a [`Frame`] stands for.
pub enum FrameView {
    Timestamp(TimestampData),
    Keyframe(KeyframeDataView),
    ViewportResized(ViewportResizedData),
    ScrollOffsetChanged(ScrollOffsetChangedData),
    MouseMoved(MouseMovedData),
    MouseClicked(MouseClickedData),
    KeyPressed(KeyPressedDataView),
    ElementFocused(ElementFocusedData),
    TextSelectionChanged(TextSelectionChangedData),
    DomNodeAdded(DomNodeAddedDataView),
    DomNodeRemoved(DomNodeRemovedData),
    DomAttributeChanged(DomAttributeChangedDataView),
    DomAttributeRemoved(DomAttributeRemovedDataView),
    DomTextChanged(DomTextChangedDataView),
    DomNodeResized(DomNodeResizedData),
    DomNodePropertyChanged(DomNodePropertyChangedDataView),
    Asset(AssetDataView),
    AdoptedStyleSheetsChanged(AdoptedStyleSheetsChangedDataView),
    NewAdoptedStyleSheet(NewAdoptedStyleSheetDataView),
    ElementScrolled(ElementScrolledData),
    ElementBlurred(ElementBlurredData),
    WindowFocused(WindowFocusedData),
    WindowBlurred(WindowBlurredData),
    StyleSheetRuleInserted(StyleSheetRuleInsertedDataView),
    StyleSheetRuleDeleted(StyleSheetRuleDeletedData),
    StyleSheetReplaced(StyleSheetReplacedDataView),
    CanvasChanged(CanvasChangedDataView),
    DomNodePropertyTextChanged(DomNodePropertyTextChangedDataView),
    RecordingMetadata(RecordingMetadataDataView),
    CacheManifest(CacheManifestDataView),
    PlaybackConfig(PlaybackConfigDataView),
    AssetReference(AssetReferenceDataView),
    Heartbeat,
}

impl DeepView for Frame {
    type V = FrameView;

    open spec fn deep_view(&self) -> FrameView {
        match self {
            Frame::Timestamp(d) => FrameView::Timestamp(d.deep_view()),
            Frame::Keyframe(d) => FrameView::Keyframe(d.deep_view()),
            Frame::ViewportResized(d) => FrameView::ViewportResized(d.deep_view()),
            Frame::ScrollOffsetChanged(d) => FrameView::ScrollOffsetChanged(d.deep_view()),
            Frame::MouseMoved(d) => FrameView::MouseMoved(d.deep_view()),
            Frame::MouseClicked(d) => FrameView::MouseClicked(d.deep_view()),
            Frame::KeyPressed(d) => FrameView::KeyPressed(d.deep_view()),
            Frame::ElementFocused(d) => FrameView::ElementFocused(d.deep_view()),
            Frame::TextSelectionChanged(d) => FrameView::TextSelectionChanged(d.deep_view()),
            Frame::DomNodeAdded(d) => FrameView::DomNodeAdded(d.deep_view()),
            Frame::DomNodeRemoved(d) => FrameView::DomNodeRemoved(d.deep_view()),
            Frame::DomAttributeChanged(d) => FrameView::DomAttributeChanged(d.deep_view()),
            Frame::DomAttributeRemoved(d) => FrameView::DomAttributeRemoved(d.deep_view()),
            Frame::DomTextChanged(d) => FrameView::DomTextChanged(d.deep_view()),
            Frame::DomNodeResized(d) => FrameView::DomNodeResized(d.deep_view()),
            Frame::DomNodePropertyChanged(d) => FrameView::DomNodePropertyChanged(d.deep_view()),
            Frame::Asset(d) => FrameView::Asset(d.deep_view()),
            Frame::AdoptedStyleSheetsChanged(d) => FrameView::AdoptedStyleSheetsChanged(
                d.deep_view(),
            ),
            Frame::NewAdoptedStyleSheet(d) => FrameView::NewAdoptedStyleSheet(d.deep_view()),
            Frame::ElementScrolled(d) => FrameView::ElementScrolled(d.deep_view()),
            Frame::ElementBlurred(d) => FrameView::ElementBlurred(d.deep_view()),
            Frame::WindowFocused(d) => FrameView::WindowFocused(d.deep_view()),
            Frame::WindowBlurred(d) => FrameView::WindowBlurred(d.deep_view()),
            Frame::StyleSheetRuleInserted(d) => FrameView::StyleSheetRuleInserted(d.deep_view()),
            Frame::StyleSheetRuleDeleted(d) => FrameView::StyleSheetRuleDeleted(d.deep_view()),
            Frame::StyleSheetReplaced(d) => FrameView::StyleSheetReplaced(d.deep_view()),
            Frame::CanvasChanged(d) => FrameView::CanvasChanged(d.deep_view()),
            Frame::DomNodePropertyTextChanged(d) => FrameView::DomNodePropertyTextChanged(
                d.deep_view(),
            ),
            Frame::RecordingMetadata(d) => FrameView::RecordingMetadata(d.deep_view()),
            Frame::CacheManifest(d) => FrameView::CacheManifest(d.deep_view()),
            Frame::PlaybackConfig(d) => FrameView::PlaybackConfig(d.deep_view()),
            Frame::AssetReference(d) => FrameView::AssetReference(d.deep_view()),
            Frame::Heartbeat => FrameView::Heartbeat,
        }
    }
}

impl View for Frame {
    type V = FrameView;

    open spec fn view(&self) -> FrameView {
        self.deep_view()
    }
}

impl FrameView {
    /// The tag that stands for the variant on the wire.
    pub open spec fn tag(self) -> u32 {
        match self {
            FrameView::Timestamp(_) => 0,
            FrameView::Keyframe(_) => 1,
            FrameView::ViewportResized(_) => 2,
            FrameView::ScrollOffsetChanged(_) => 3,
            FrameView::MouseMoved(_) => 4,
            FrameView::MouseClicked(_) => 5,
            FrameView::KeyPressed(_) => 6,
            FrameView::ElementFocused(_) => 7,
            FrameView::TextSelectionChanged(_) => 8,
            FrameView::DomNodeAdded(_) => 9,
            FrameView::DomNodeRemoved(_) => 10,
            FrameView::DomAttributeChanged(_) => 11,
            FrameView::DomAttributeRemoved(_) => 12,
            FrameView::DomTextChanged(_) => 13,
            FrameView::DomNodeResized(_) => 14,
            FrameView::DomNodePropertyChanged(_) => 15,
            FrameView::Asset(_) => 16,
            FrameView::AdoptedStyleSheetsChanged(_) => 17,
            FrameView::NewAdoptedStyleSheet(_) => 18,
            FrameView::ElementScrolled(_) => 19,
            FrameView::ElementBlurred(_) => 20,
            FrameView::WindowFocused(_) => 21,
            FrameView::WindowBlurred(_) => 22,
            FrameView::StyleSheetRuleInserted(_) => 23,
            FrameView::StyleSheetRuleDeleted(_) => 24,
            FrameView::StyleSheetReplaced(_) => 25,
            FrameView::CanvasChanged(_) => 26,
            FrameView::DomNodePropertyTextChanged(_) => 27,
            FrameView::RecordingMetadata(_) => 28,
            FrameView::CacheManifest(_) => 29,
            FrameView::PlaybackConfig(_) => 30,
            FrameView::AssetReference(_) => 31,
            FrameView::Heartbeat => 32,
        }
    }
}

impl Frame {
    /// The tag that stands for the variant on the wire.
    pub fn tag(&self) -> (t: u32)
        ensures
            t == self@.tag(),
    {
        match self {
            Frame::Timestamp(_) => 0,
            Frame::Keyframe(_) => 1,
            Frame::ViewportResized(_) => 2,
            Frame::ScrollOffsetChanged(_) => 3,
            Frame::MouseMoved(_) => 4,
            Frame::MouseClicked(_) => 5,
            Frame::KeyPressed(_) => 6,
            Frame::ElementFocused(_) => 7,
            Frame::TextSelectionChanged(_) => 8,
            Frame::DomNodeAdded(_) => 9,
            Frame::DomNodeRemoved(_) => 10,
            Frame::DomAttributeChanged(_) => 11,
            Frame::DomAttributeRemoved(_) => 12,
            Frame::DomTextChanged(_) => 13,
            Frame::DomNodeResized(_) => 14,
            Frame::DomNodePropertyChanged(_) => 15,
            Frame::Asset(_) => 16,
            Frame::AdoptedStyleSheetsChanged(_) => 17,
            Frame::NewAdoptedStyleSheet(_) => 18,
            Frame::ElementScrolled(_) => 19,
            Frame::ElementBlurred(_) => 20,
            Frame::WindowFocused(_) => 21,
            Frame::WindowBlurred(_) => 22,
            Frame::StyleSheetRuleInserted(_) => 23,
            Frame::StyleSheetRuleDeleted(_) => 24,
            Frame::StyleSheetReplaced(_) => 25,
            Frame::CanvasChanged(_) => 26,
            Frame::DomNodePropertyTextChanged(_) => 27,
            Frame::RecordingMetadata(_) => 28,
            Frame::CacheManifest(_) => 29,
            Frame::PlaybackConfig(_) => 30,
            Frame::AssetReference(_) => 31,
            Frame::Heartbeat => 32,
        }
    }
}

/// A point in time, in milliseconds since the Unix epoch.
#[derive(Debug, Clone, PartialEq, Eq)]
pub struct TimestampData {
    pub timestamp: u64,
}

impl DeepView for TimestampData {
    type V = TimestampData;

    open spec fn deep_view(&self) -> TimestampData {
        *self
    }
}

impl View for TimestampData {
    type V = TimestampData;

    open spec fn view(&self) -> TimestampData {
        self.deep_view()
    }
}

/// The full document, with the size of the viewport it was taken in.
#[derive(Debug, Clone, PartialEq, Eq)]
pub struct KeyframeData {
    pub document: VDocument,
    pub viewport_width: u32,
    pub viewport_height: u32,
}

/// The value that a [`KeyframeData`] stands for.
pub struct KeyframeDataView {
    pub document: VDocumentView,
    pub viewport_width: u32,
    pub viewport_height: u32,
}

impl DeepView for KeyframeData {
    type V = KeyframeDataView;

    open spec fn deep_view(&self) -> KeyframeDataView {
        KeyframeDataView {
            document: self.document.deep_view(),
            viewport_width: self.viewport_width,
            viewport_height: self.viewport_height,
        }
    }
}

impl View for KeyframeData {
    type V = KeyframeDataView;

    open spec fn view(&self) -> KeyframeDataView {
        self.deep_view()
    }
}

/// The new size of the viewport.
#[derive(Debug, Clone, PartialEq, Eq)]
pub struct ViewportResizedData {
    pub width: u32,
    pub height: u32,
}

impl DeepView for ViewportResizedData {
    type V = ViewportResizedData;

    open spec fn deep_view(&self) -> ViewportResizedData {
        *self
    }
}

impl View for ViewportResizedData {
    type V = ViewportResizedData;

    open spec fn view(&self) -> ViewportResizedData {
        self.deep_view()
    }
}

/// The new scroll offset of the window.
#[derive(Debug, Clone, PartialEq, Eq)]
pub struct ScrollOffsetChangedData {
    pub scroll_x_offset: u32,
    pub scroll_y_offset: u32,
}

impl DeepView for ScrollOffsetChangedData {
    type V = ScrollOffsetChangedData;

    open spec fn deep_view(&self) -> ScrollOffsetChangedData {
        *self
    }
}

impl View for ScrollOffsetChangedData {
    type V = ScrollOffsetChangedData;

    open spec fn view(&self) -> ScrollOffsetChangedData {
        self.deep_view()
    }
}

/// The new position of the pointer.
#[derive(Debug, Clone, PartialEq, Eq)]
pub struct MouseMovedData {
    pub x: u32,
    pub y: u32,
}

impl DeepView for MouseMovedData {
    type V = MouseMovedData;

    open spec fn deep_view(&self) -> MouseMovedData {
        *self
    }
}

impl View for MouseMovedData {
    type V = MouseMovedData;

    open spec fn view(&self) -> MouseMovedData {
        self.deep_view()
    }
}

/// The position of a click.
#[derive(Debug, Clone, PartialEq, Eq)]
pub struct MouseClickedData {
    pub x: u32,
    pub y: u32,
}

impl DeepView for MouseClickedData {
    type V = MouseClickedData;

    open spec fn deep_view(&self) -> MouseClickedData {
        *self
    }
}

impl View for MouseClickedData {
    type V = MouseClickedData;

    open spec fn view(&self) -> MouseClickedData {
        self.deep_view()
    }
}

/// A key press with the modifier keys held.
#[derive(Debug, Clone, PartialEq, Eq)]
pub struct KeyPressedData {
    pub code: String,
    pub alt_key: bool,
    pub ctrl_key: bool,
    pub meta_key: bool,
    pub shift_key: bool,
}

/// The value that a [`KeyPressedData`] stands for.
pub struct KeyPressedDataView {
    pub code: Seq<char>,
    pub alt_key: bool,
    pub ctrl_key: bool,
    pub meta_key: bool,
    pub shift_key: bool,
}

impl DeepView for KeyPressedData {
    type V = KeyPressedDataView;

    open spec fn deep_view(&self) -> KeyPressedDataView {
        KeyPressedDataView {
            code: self.code@,
            alt_key: self.alt_key,
            ctrl_key: self.ctrl_key,
            meta_key: self.meta_key,
            shift_key: self.shift_key,
        }
    }
}

impl View for KeyPressedData {
    type V = KeyPressedDataView;

    open spec fn view(&self) -> KeyPressedDataView {
        self.deep_view()
    }
}

/// The node that took the focus.
#[derive(Debug, Clone, PartialEq, Eq)]
pub struct ElementFocusedData {
    pub node_id: u32,
}

impl DeepView for ElementFocusedData {
    type V = ElementFocusedData;

    open spec fn deep_view(&self) -> ElementFocusedData {
        *self
    }
}

impl View for ElementFocusedData {
    type V = ElementFocusedData;

    open spec fn view(&self) -> ElementFocusedData {
        self.deep_view()
    }
}

/// The two ends of the text selection.
#[derive(Debug, Clone, PartialEq, Eq)]
pub struct TextSelectionChangedData {
    pub selection_start_node_id: u32,
    pub selection_start_offset: u32,
    pub selection_end_node_id: u32,
    pub selection_end_offset: u32,
}

impl DeepView for TextSelectionChangedData {
    type V = TextSelectionChangedData;

    open spec fn deep_view(&self) -> TextSelectionChangedData {
        *self
    }
}

impl View for TextSelectionChangedData {
    type V = TextSelectionChangedData;

    open spec fn view(&self) -> TextSelectionChangedData {
        self.deep_view()
    }
}

/// A node put under a parent at an index.
#[derive(Debug, Clone, PartialEq, Eq)]
pub struct DomNodeAddedData {
    pub parent_node_id: u32,
    pub index: u32,
    pub node: VNode,
}

/// The value that a [`DomNodeAddedData`] stands for.
pub struct DomNodeAddedDataView {
    pub parent_node_id: u32,
    pub index: u32,
    pub node: VNodeView,
}

impl DeepView for DomNodeAddedData {
    type V = DomNodeAddedDataView;

    open spec fn deep_view(&self) -> DomNodeAddedDataView {
        DomNodeAddedDataView {
            parent_node_id: self.parent_node_id,
            index: self.index,
            node: self.node.deep_view(),
        }
    }
}

impl View for DomNodeAddedData {
    type V = DomNodeAddedDataView;

    open spec fn view(&self) -> DomNodeAddedDataView {
        self.deep_view()
    }
}

/// The node taken out of the document.
#[derive(Debug, Clone, PartialEq, Eq)]
pub struct DomNodeRemovedData {
    pub node_id: u32,
}

impl DeepView for DomNodeRemovedData {
    type V = DomNodeRemovedData;

    open spec fn deep_view(&self) -> DomNodeRemovedData {
        *self
    }
}

impl View for DomNodeRemovedData {
    type V = DomNodeRemovedData;

    open spec fn view(&self) -> DomNodeRemovedData {
        self.deep_view()
    }
}

/// An attribute set on a node.
#[derive(Debug, Clone, PartialEq, Eq)]
pub struct DomAttributeChangedData {
    pub node_id: u32,
    pub attribute_name: String,
    pub attribute_value: String,
}

/// The value that a [`DomAttributeChangedData`] stands for.
pub struct DomAttributeChangedDataView {
    pub node_id: u32,
    pub attribute_name: Seq<char>,
    pub attribute_value: Seq<char>,
}

impl DeepView for DomAttributeChangedData {
    type V = DomAttributeChangedDataView;

    open spec fn deep_view(&self) -> DomAttributeChangedDataView {
        DomAttributeChangedDataView {
            node_id: self.node_id,
            attribute_name: self.attribute_name@,
            attribute_value: self.attribute_value@,
        }
    }
}

impl View for DomAttributeChangedData {
    type V = DomAttributeChangedDataView;

    open spec fn view(&self) -> DomAttributeChangedDataView {
        self.deep_view()
    }
}

/// An attribute taken off a node.
#[derive(Debug, Clone, PartialEq, Eq)]
pub struct DomAttributeRemovedData {
    pub node_id: u32,
    pub attribute_name: String,
}

/// The value that a [`DomAttributeRemovedData`] stands for.
pub struct DomAttributeRemovedDataView {
    pub node_id: u32,
    pub attribute_name: Seq<char>,
}

impl DeepView for DomAttributeRemovedData {
    type V = DomAttributeRemovedDataView;

    open spec fn deep_view(&self) -> DomAttributeRemovedDataView {
        DomAttributeRemovedDataView {
            node_id: self.node_id,
            attribute_name: self.attribute_name@,
        }
    }
}

impl View for DomAttributeRemovedData {
    type V = DomAttributeRemovedDataView;

    open spec fn view(&self) -> DomAttributeRemovedDataView {
        self.deep_view()
    }
}

/// Text put in at an index.
#[derive(Debug, Clone, PartialEq, Eq)]
pub struct TextInsertOperationData {
    pub index: u32,
    pub text: String,
}

/// The value that a [`TextInsertOperationData`] stands for.
pub struct TextInsertOperationDataView {
    pub index: u32,
    pub text: Seq<char>,
}

impl DeepView for TextInsertOperationData {
    type V = TextInsertOperationDataView;

    open spec fn deep_view(&self) -> TextInsertOperationDataView {
        TextInsertOperationDataView {
            index: self.index,
            text: self.text@,
        }
    }
}

impl View for TextInsertOperationData {
    type V = TextInsertOperationDataView;

    open spec fn view(&self) -> TextInsertOperationDataView {
        self.deep_view()
    }
}

/// A run of text taken out at an index.
#[derive(Debug, Clone, PartialEq, Eq)]
pub struct TextRemoveOperationData {
    pub index: u32,
    pub length: u32,
}

impl DeepView for TextRemoveOperationData {
    type V = TextRemoveOperationData;

    open spec fn deep_view(&self) -> TextRemoveOperationData {
        *self
    }
}

impl View for TextRemoveOperationData {
    type V = TextRemoveOperationData;

    open spec fn view(&self) -> TextRemoveOperationData {
        self.deep_view()
    }
}

/// One edit to a text.
#[derive(Debug, Clone, PartialEq, Eq)]
pub enum TextOperationData {
    Insert(TextInsertOperationData),
    Remove(TextRemoveOperationData),
}

/// The value that a [`TextOperationData`] stands for.
pub enum TextOperationDataView {
    Insert(TextInsertOperationDataView),
    Remove(TextRemoveOperationData),
}

impl DeepView for TextOperationData {
    type V = TextOperationDataView;

    open spec fn deep_view(&self) -> TextOperationDataView {
        match self {
            TextOperationData::Insert(d) => TextOperationDataView::Insert(d.deep_view()),
            TextOperationData::Remove(d) => TextOperationDataView::Remove(d.deep_view()),
        }
    }
}

impl View for TextOperationData {
    type V = TextOperationDataView;

    open spec fn view(&self) -> TextOperationDataView {
        self.deep_view()
    }
}

/// Edits to the text of a node, in order.
#[derive(Debug, Clone, PartialEq, Eq)]
pub struct DomTextChangedData {
    pub node_id: u32,
    pub operations: Vec<TextOperationData>,
}

/// The value that a [`DomTextChangedData`] stands for.
pub struct DomTextChangedDataView {
    pub node_id: u32,
    pub operations: Seq<TextOperationDataView>,
}

impl DeepView for DomTextChangedData {
    type V = DomTextChangedDataView;

    open spec fn deep_view(&self) -> DomTextChangedDataView {
        DomTextChangedDataView {
            node_id: self.node_id,
            operations: self.operations.deep_view(),
        }
    }
}

impl View for DomTextChangedData {
    type V = DomTextChangedDataView;

    open spec fn view(&self) -> DomTextChangedDataView {
        self.deep_view()
    }
}

/// The new size of a node.
#[derive(Debug, Clone, PartialEq, Eq)]
pub struct DomNodeResizedData {
    pub node_id: u32,
    pub width: u32,
    pub height: u32,
}

impl DeepView for DomNodeResizedData {
    type V = DomNodeResizedData;

    open spec fn deep_view(&self) -> DomNodeResizedData {
        *self
    }
}

impl View for DomNodeResizedData {
    type V = DomNodeResizedData;

    open spec fn view(&self) -> DomNodeResizedData {
        self.deep_view()
    }
}

/// A property set on a node.
#[derive(Debug, Clone, PartialEq, Eq)]
pub struct DomNodePropertyChangedData {
    pub node_id: u32,
    pub property_name: String,
    pub property_value: String,
}

/// The value that a [`DomNodePropertyChangedData`] stands for.
pub struct DomNodePropertyChangedDataView {
    pub node_id: u32,
    pub property_name: Seq<char>,
    pub property_value: Seq<char>,
}

impl DeepView for DomNodePropertyChangedData {
    type V = DomNodePropertyChangedDataView;

    open spec fn deep_view(&self) -> DomNodePropertyChangedDataView {
        DomNodePropertyChangedDataView {
            node_id: self.node_id,
            property_name: self.property_name@,
            property_value: self.property_value@,
        }
    }
}

impl View for DomNodePropertyChangedData {
    type V = DomNodePropertyChangedDataView;

    open spec fn view(&self) -> DomNodePropertyChangedDataView {
        self.deep_view()
    }
}

/// Why a recorder could not fetch an asset, if it could not.
#[derive(Debug, Clone, PartialEq, Eq)]
pub enum AssetFetchError {
    NoError,
    CORS,
    Network,
    Http,
    Unknown(String),
}

/// The value that a [`AssetFetchError`] stands for.
pub enum AssetFetchErrorView {
    NoError,
    CORS,
    Network,
    Http,
    Unknown(Seq<char>),
}

impl DeepView for AssetFetchError {
    type V = AssetFetchErrorView;

    open spec fn deep_view(&self) -> AssetFetchErrorView {
        match self {
            AssetFetchError::NoError => AssetFetchErrorView::NoError,
            AssetFetchError::CORS => AssetFetchErrorView::CORS,
            AssetFetchError::Network => AssetFetchErrorView::Network,
            AssetFetchError::Http => AssetFetchErrorView::Http,
            AssetFetchError::Unknown(d) => AssetFetchErrorView::Unknown(d@),
        }
    }
}

impl View for AssetFetchError {
    type V = AssetFetchErrorView;

    open spec fn view(&self) -> AssetFetchErrorView {
        self.deep_view()
    }
}

/// A binary asset as the recorder sends it.
#[derive(Debug, Clone, PartialEq, Eq)]
pub struct AssetData {
    pub asset_id: u32,
    pub url: String,
    pub mime: Option<String>,
    pub buf: Vec<u8>,
    pub fetch_error: AssetFetchError,
}

/// The value that a [`AssetData`] stands for.
pub struct AssetDataView {
    pub asset_id: u32,
    pub url: Seq<char>,
    pub mime: Option<Seq<char>>,
    pub buf: Seq<u8>,
    pub fetch_error: AssetFetchErrorView,
}

impl DeepView for AssetData {
    type V = AssetDataView;

    open spec fn deep_view(&self) -> AssetDataView {
        AssetDataView {
            asset_id: self.asset_id,
            url: self.url@,
            mime: self.mime.deep_view(),
            buf: self.buf@,
            fetch_error: self.fetch_error.deep_view(),
        }
    }
}

impl View for AssetData {
    type V = AssetDataView;

    open spec fn view(&self) -> AssetDataView {
        self.deep_view()
    }
}

/// The adopted style sheets after a change.
#[derive(Debug, Clone, PartialEq, Eq)]
pub struct AdoptedStyleSheetsChangedData {
    pub style_sheet_ids: Vec<u32>,
    pub added_count: u32,
}

/// The value that a [`AdoptedStyleSheetsChangedData`] stands for.
pub struct AdoptedStyleSheetsChangedDataView {
    pub style_sheet_ids: Seq<u32>,
    pub added_count: u32,
}

impl DeepView for AdoptedStyleSheetsChangedData {
    type V = AdoptedStyleSheetsChangedDataView;

    open spec fn deep_view(&self) -> AdoptedStyleSheetsChangedDataView {
        AdoptedStyleSheetsChangedDataView {
            style_sheet_ids: self.style_sheet_ids.deep_view(),
            added_count: self.added_count,
        }
    }
}

impl View for AdoptedStyleSheetsChangedData {
    type V = AdoptedStyleSheetsChangedDataView;

    open spec fn view(&self) -> AdoptedStyleSheetsChangedDataView {
        self.deep_view()
    }
}

/// A style sheet adopted after the keyframe.
#[derive(Debug, Clone, PartialEq, Eq)]
pub struct NewAdoptedStyleSheetData {
    pub style_sheet: VStyleSheet,
}

/// The value that a [`NewAdoptedStyleSheetData`] stands for.
pub struct NewAdoptedStyleSheetDataView {
    pub style_sheet: VStyleSheetView,
}

impl DeepView for NewAdoptedStyleSheetData {
    type V = NewAdoptedStyleSheetDataView;

    open spec fn deep_view(&self) -> NewAdoptedStyleSheetDataView {
        NewAdoptedStyleSheetDataView {
            style_sheet: self.style_sheet.deep_view(),
        }
    }
}

impl View for NewAdoptedStyleSheetData {
    type V = NewAdoptedStyleSheetDataView;

    open spec fn view(&self) -> NewAdoptedStyleSheetDataView {
        self.deep_view()
    }
}

/// The new scroll offset of an element.
#[derive(Debug, Clone, PartialEq, Eq)]
pub struct ElementScrolledData {
    pub node_id: u32,
    pub scroll_x_offset: u32,
    pub scroll_y_offset: u32,
}

impl DeepView for ElementScrolledData {
    type V = ElementScrolledData;

    open spec fn deep_view(&self) -> ElementScrolledData {
        *self
    }
}

impl View for ElementScrolledData {
    type V = ElementScrolledData;

    open spec fn view(&self) -> ElementScrolledData {
        self.deep_view()
    }
}

/// The node that lost the focus.
#[derive(Debug, Clone, PartialEq, Eq)]
pub struct ElementBlurredData {
    pub node_id: u32,
}

impl DeepView for ElementBlurredData {
    type V = ElementBlurredData;

    open spec fn deep_view(&self) -> ElementBlurredData {
        *self
    }
}

impl View for ElementBlurredData {
    type V = ElementBlurredData;

    open spec fn view(&self) -> ElementBlurredData {
        self.deep_view()
    }
}

/// The window took the focus.
#[derive(Debug, Clone, PartialEq, Eq)]
pub struct WindowFocusedData {}

impl DeepView for WindowFocusedData {
    type V = WindowFocusedData;

    open spec fn deep_view(&self) -> WindowFocusedData {
        *self
    }
}

impl View for WindowFocusedData {
    type V = WindowFocusedData;

    open spec fn view(&self) -> WindowFocusedData {
        self.deep_view()
    }
}

/// The window lost the focus.
#[derive(Debug, Clone, PartialEq, Eq)]
pub struct WindowBlurredData {}

impl DeepView for WindowBlurredData {
    type V = WindowBlurredData;

    open spec fn deep_view(&self) -> WindowBlurredData {
        *self
    }
}

impl View for WindowBlurredData {
    type V = WindowBlurredData;

    open spec fn view(&self) -> WindowBlurredData {
        self.deep_view()
    }
}

/// A rule put into a style sheet.
#[derive(Debug, Clone, PartialEq, Eq)]
pub struct StyleSheetRuleInsertedData {
    pub style_sheet_id: u32,
    pub rule_index: u32,
    pub content: String,
}

/// The value that a [`StyleSheetRuleInsertedData`] stands for.
pub struct StyleSheetRuleInsertedDataView {
    pub style_sheet_id: u32,
    pub rule_index: u32,
    pub content: Seq<char>,
}

impl DeepView for StyleSheetRuleInsertedData {
    type V = StyleSheetRuleInsertedDataView;

    open spec fn deep_view(&self) -> StyleSheetRuleInsertedDataView {
        StyleSheetRuleInsertedDataView {
            style_sheet_id: self.style_sheet_id,
            rule_index: self.rule_index,
            content: self.content@,
        }
    }
}

impl View for StyleSheetRuleInsertedData {
    type V = StyleSheetRuleInsertedDataView;

    open spec fn view(&self) -> StyleSheetRuleInsertedDataView {
        self.deep_view()
    }
}

/// A rule taken out of a style sheet.
#[derive(Debug, Clone, PartialEq, Eq)]
pub struct StyleSheetRuleDeletedData {
    pub style_sheet_id: u32,
    pub rule_index: u32,
}

impl DeepView for StyleSheetRuleDeletedData {
    type V = StyleSheetRuleDeletedData;

    open spec fn deep_view(&self) -> StyleSheetRuleDeletedData {
        *self
    }
}

impl View for StyleSheetRuleDeletedData {
    type V = StyleSheetRuleDeletedData;

    open spec fn view(&self) -> StyleSheetRuleDeletedData {
        self.deep_view()
    }
}

/// The new text of a style sheet.
#[derive(Debug, Clone, PartialEq, Eq)]
pub struct StyleSheetReplacedData {
    pub style_sheet_id: u32,
    pub content: String,
}

/// The value that a [`StyleSheetReplacedData`] stands for.
pub struct StyleSheetReplacedDataView {
    pub style_sheet_id: u32,
    pub content: Seq<char>,
}

impl DeepView for StyleSheetReplacedData {
    type V = StyleSheetReplacedDataView;

    open spec fn deep_view(&self) -> StyleSheetReplacedDataView {
        StyleSheetReplacedDataView {
            style_sheet_id: self.style_sheet_id,
            content: self.content@,
        }
    }
}

impl View for StyleSheetReplacedData {
    type V = StyleSheetReplacedDataView;

    open spec fn view(&self) -> StyleSheetReplacedDataView {
        self.deep_view()
    }
}

/// The new image of a canvas.
#[derive(Debug, Clone, PartialEq, Eq)]
pub struct CanvasChangedData {
    pub node_id: u32,
    pub mime_type: String,
    pub data: Vec<u8>,
}

/// The value that a [`CanvasChangedData`] stands for.
pub struct CanvasChangedDataView {
    pub node_id: u32,
    pub mime_type: Seq<char>,
    pub data: Seq<u8>,
}

impl DeepView for CanvasChangedData {
    type V = CanvasChangedDataView;

    open spec fn deep_view(&self) -> CanvasChangedDataView {
        CanvasChangedDataView {
            node_id: self.node_id,
            mime_type: self.mime_type@,
            data: self.data@,
        }
    }
}

impl View for CanvasChangedData {
    type V = CanvasChangedDataView;

    open spec fn view(&self) -> CanvasChangedDataView {
        self.deep_view()
    }
}

/// Edits to a text property of a node, in order.
#[derive(Debug, Clone, PartialEq, Eq)]
pub struct DomNodePropertyTextChangedData {
    pub node_id: u32,
    pub property_name: String,
    pub operations: Vec<TextOperationData>,
}

/// The value that a [`DomNodePropertyTextChangedData`] stands for.
pub struct DomNodePropertyTextChangedDataView {
    pub node_id: u32,
    pub property_name: Seq<char>,
    pub operations: Seq<TextOperationDataView>,
}

impl DeepView for DomNodePropertyTextChangedData {
    type V = DomNodePropertyTextChangedDataView;

    open spec fn deep_view(&self) -> DomNodePropertyTextChangedDataView {
        DomNodePropertyTextChangedDataView {
            node_id: self.node_id,
            property_name: self.property_name@,
            operations: self.operations.deep_view(),
        }
    }
}

impl View for DomNodePropertyTextChangedData {
    type V = DomNodePropertyTextChangedDataView;

    open spec fn view(&self) -> DomNodePropertyTextChangedDataView {
        self.deep_view()
    }
}

/// What a recorder says of itself when it opens a stream.
#[derive(Debug, Clone, PartialEq, Eq)]
pub struct RecordingMetadataData {
    pub initial_url: String,
}

/// The value that a [`RecordingMetadataData`] stands for.
pub struct RecordingMetadataDataView {
    pub initial_url: Seq<char>,
}

impl DeepView for RecordingMetadataData {
    type V = RecordingMetadataDataView;

    open spec fn deep_view(&self) -> RecordingMetadataDataView {
        RecordingMetadataDataView {
            initial_url: self.initial_url@,
        }
    }
}

impl View for RecordingMetadataData {
    type V = RecordingMetadataDataView;

    open spec fn view(&self) -> RecordingMetadataDataView {
        self.deep_view()
    }
}

/// One asset that the server already holds.
#[derive(Debug, Clone, PartialEq, Eq)]
pub struct ManifestEntryData {
    pub url: String,
    pub sha256_hash: String,
}

/// The value that a [`ManifestEntryData`] stands for.
pub struct ManifestEntryDataView {
    pub url: Seq<char>,
    pub sha256_hash: Seq<char>,
}

impl DeepView for ManifestEntryData {
    type V = ManifestEntryDataView;

    open spec fn deep_view(&self) -> ManifestEntryDataView {
        ManifestEntryDataView {
            url: self.url@,
            sha256_hash: self.sha256_hash@,
        }
    }
}

impl View for ManifestEntryData {
    type V = ManifestEntryDataView;

    open spec fn view(&self) -> ManifestEntryDataView {
        self.deep_view()
    }
}

/// The assets of a site that a recorder need not send again.
#[derive(Debug, Clone, PartialEq, Eq)]
pub struct CacheManifestData {
    pub site_origin: String,
    pub assets: Vec<ManifestEntryData>,
}

/// The value that a [`CacheManifestData`] stands for.
pub struct CacheManifestDataView {
    pub site_origin: Seq<char>,
    pub assets: Seq<ManifestEntryDataView>,
}

impl DeepView for CacheManifestData {
    type V = CacheManifestDataView;

    open spec fn deep_view(&self) -> CacheManifestDataView {
        CacheManifestDataView {
            site_origin: self.site_origin@,
            assets: self.assets.deep_view(),
        }
    }
}

impl View for CacheManifestData {
    type V = CacheManifestDataView;

    open spec fn view(&self) -> CacheManifestDataView {
        self.deep_view()
    }
}

/// What a player has to know before the frames of a recording.
#[derive(Debug, Clone, PartialEq, Eq)]
pub struct PlaybackConfigData {
    pub storage_type: String,
    pub config_json: String,
    pub is_live: bool,
    pub latest_timestamp: Option<u64>,
}

/// The value that a [`PlaybackConfigData`] stands for.
pub struct PlaybackConfigDataView {
    pub storage_type: Seq<char>,
    pub config_json: Seq<char>,
    pub is_live: bool,
    pub latest_timestamp: Option<u64>,
}

impl DeepView for PlaybackConfigData {
    type V = PlaybackConfigDataView;

    open spec fn deep_view(&self) -> PlaybackConfigDataView {
        PlaybackConfigDataView {
            storage_type: self.storage_type@,
            config_json: self.config_json@,
            is_live: self.is_live,
            latest_timestamp: self.latest_timestamp.deep_view(),
        }
    }
}

impl View for PlaybackConfigData {
    type V = PlaybackConfigDataView;

    open spec fn view(&self) -> PlaybackConfigDataView {
        self.deep_view()
    }
}

/// An asset named by a token in place of its bytes.
#[derive(Debug, Clone, PartialEq, Eq)]
pub struct AssetReferenceData {
    pub asset_id: u32,
    pub url: String,
    pub hash: String,
    pub mime: Option<String>,
}

/// The value that a [`AssetReferenceData`] stands for.
pub struct AssetReferenceDataView {
    pub asset_id: u32,
    pub url: Seq<char>,
    pub hash: Seq<char>,
    pub mime: Option<Seq<char>>,
}

impl DeepView for AssetReferenceData {
    type V = AssetReferenceDataView;

    open spec fn deep_view(&self) -> AssetReferenceDataView {
        AssetReferenceDataView {
            asset_id: self.asset_id,
            url: self.url@,
            hash: self.hash@,
            mime: self.mime.deep_view(),
        }
    }
}

impl View for AssetReferenceData {
    type V = AssetReferenceDataView;

    open spec fn view(&self) -> AssetReferenceDataView {
        self.deep_view()
    }
}

} // verus!
