//! The encoding of frames and of what they hold.

use vstd::prelude::*;
use crate::frame::AdoptedStyleSheetsChangedData;
use crate::frame::AdoptedStyleSheetsChangedDataView;
use crate::frame::AssetData;
use crate::frame::AssetDataView;
use crate::frame::AssetFetchError;
use crate::frame::AssetFetchErrorView;
use crate::frame::AssetReferenceData;
use crate::frame::AssetReferenceDataView;
use crate::frame::CacheManifestData;
use crate::frame::CacheManifestDataView;
use crate::frame::CanvasChangedData;
use crate::frame::CanvasChangedDataView;
use crate::frame::DomAttributeChangedData;
use crate::frame::DomAttributeChangedDataView;
use crate::frame::DomAttributeRemovedData;
use crate::frame::DomAttributeRemovedDataView;
use crate::frame::DomNodeAddedData;
use crate::frame::DomNodeAddedDataView;
use crate::frame::DomNodePropertyChangedData;
use crate::frame::DomNodePropertyChangedDataView;
use crate::frame::DomNodePropertyTextChangedData;
use crate::frame::DomNodePropertyTextChangedDataView;
use crate::frame::DomNodeRemovedData;
use crate::frame::DomNodeResizedData;
use crate::frame::DomTextChangedData;
use crate::frame::DomTextChangedDataView;
use crate::frame::ElementBlurredData;
use crate::frame::ElementFocusedData;
use crate::frame::ElementScrolledData;
use crate::frame::Frame;
use crate::frame::FrameView;
use crate::frame::KeyframeData;
use crate::frame::KeyframeDataView;
use crate::frame::KeyPressedData;
use crate::frame::KeyPressedDataView;
use crate::frame::ManifestEntryData;
use crate::frame::ManifestEntryDataView;
use crate::frame::MouseClickedData;
use crate::frame::MouseMovedData;
use crate::frame::NewAdoptedStyleSheetData;
use crate::frame::NewAdoptedStyleSheetDataView;
use crate::frame::PlaybackConfigData;
use crate::frame::PlaybackConfigDataView;
use crate::frame::RecordingMetadataData;
use crate::frame::RecordingMetadataDataView;
use crate::frame::ScrollOffsetChangedData;
use crate::frame::StyleSheetReplacedData;
use crate::frame::StyleSheetReplacedDataView;
use crate::frame::StyleSheetRuleDeletedData;
use crate::frame::StyleSheetRuleInsertedData;
use crate::frame::StyleSheetRuleInsertedDataView;
use crate::frame::TextInsertOperationData;
use crate::frame::TextInsertOperationDataView;
use crate::frame::TextOperationData;
use crate::frame::TextOperationDataView;
use crate::frame::TextRemoveOperationData;
use crate::frame::TextSelectionChangedData;
use crate::frame::TimestampData;
use crate::frame::ViewportResizedData;
use crate::frame::WindowBlurredData;
use crate::frame::WindowFocusedData;
use crate::vdom::VDocument;
use crate::vdom::VNode;
use crate::vdom::VStyleSheet;
use crate::wire::prim::be32;
use crate::wire::prim::bytes_decoding;
use crate::wire::prim::bytes_encoding;
use crate::wire::prim::bytes_wf;
use crate::wire::prim::decode_bytes;
use crate::wire::prim::encode_bytes;
use crate::wire::prim::lemma_bytes_roundtrip;
use crate::wire::prim::lemma_holds_at_concat;
use crate::wire::prim::lemma_tagged_roundtrip;
use crate::wire::prim::DecodeError;
use crate::wire::prim::Decoded;
use crate::wire::prim::Decoding;
use crate::wire::prim::Wire;

verus! {

impl Wire for TimestampData {
    /// The fields in the order of their declaration.
    open spec fn encoding(v: TimestampData) -> Seq<u8> {
        u64::encoding(v.timestamp)
    }

    open spec fn decoding(s: Seq<u8>, pos: int) -> Decoding<TimestampData> {
        match u64::decoding(s, pos) {
            Ok((timestamp, end)) => Ok((TimestampData { timestamp }, end)),
            Err(e) => Err(e),
        }
    }

    open spec fn wf(v: TimestampData) -> bool {
        true
    }

    fn encode(&self, out: &mut Vec<u8>) {
        self.timestamp.encode(out);
    }

    fn decode(input: &[u8], pos: usize) -> (r: Decoded<TimestampData>) {
        let (timestamp, end) = u64::decode(input, pos)?;
        Ok((TimestampData { timestamp }, end))
    }

    proof fn lemma_roundtrip(v: TimestampData, s: Seq<u8>, pos: int) {
        u64::lemma_roundtrip(v.timestamp, s, pos);
    }
}

impl Wire for KeyframeData {
    /// The fields in the order of their declaration.
    open spec fn encoding(v: KeyframeDataView) -> Seq<u8> {
        VDocument::encoding(v.document)
            + u32::encoding(v.viewport_width)
            + u32::encoding(v.viewport_height)
    }

    open spec fn decoding(s: Seq<u8>, pos: int) -> Decoding<KeyframeDataView> {
        match VDocument::decoding(s, pos) {
            Ok((document, at1)) => match u32::decoding(s, at1) {
                Ok((viewport_width, at2)) => match u32::decoding(s, at2) {
                    Ok((viewport_height, end)) => Ok(
                        (KeyframeDataView { document, viewport_width, viewport_height }, end),
                    ),
                    Err(e) => Err(e),
                },
                Err(e) => Err(e),
            },
            Err(e) => Err(e),
        }
    }

    open spec fn wf(v: KeyframeDataView) -> bool {
        VDocument::wf(v.document)
    }

    fn encode(&self, out: &mut Vec<u8>) {
        self.document.encode(out);
        self.viewport_width.encode(out);
        self.viewport_height.encode(out);
        assert(out@ =~= old(out)@ + Self::encoding(self.deep_view()));
    }

    fn decode(input: &[u8], pos: usize) -> (r: Decoded<KeyframeData>) {
        let (document, at1) = VDocument::decode(input, pos)?;
        let (viewport_width, at2) = u32::decode(input, at1)?;
        let (viewport_height, end) = u32::decode(input, at2)?;
        Ok((KeyframeData { document, viewport_width, viewport_height }, end))
    }

    proof fn lemma_roundtrip(v: KeyframeDataView, s: Seq<u8>, pos: int) {
        let e_document = VDocument::encoding(v.document);
        let e_viewport_width = u32::encoding(v.viewport_width);
        let e_viewport_height = u32::encoding(v.viewport_height);
        lemma_holds_at_concat(s, pos, e_document + e_viewport_width, e_viewport_height);
        lemma_holds_at_concat(s, pos, e_document, e_viewport_width);
        let at1 = pos + e_document.len();
        let at2 = at1 + e_viewport_width.len();
        VDocument::lemma_roundtrip(v.document, s, pos);
        u32::lemma_roundtrip(v.viewport_width, s, at1);
        u32::lemma_roundtrip(v.viewport_height, s, at2);
    }
}

impl Wire for ViewportResizedData {
    /// The fields in the order of their declaration.
    open spec fn encoding(v: ViewportResizedData) -> Seq<u8> {
        u32::encoding(v.width)
            + u32::encoding(v.height)
    }

    open spec fn decoding(s: Seq<u8>, pos: int) -> Decoding<ViewportResizedData> {
        match u32::decoding(s, pos) {
            Ok((width, at1)) => match u32::decoding(s, at1) {
                Ok((height, end)) => Ok((ViewportResizedData { width, height }, end)),
                Err(e) => Err(e),
            },
            Err(e) => Err(e),
        }
    }

    open spec fn wf(v: ViewportResizedData) -> bool {
        true
    }

    fn encode(&self, out: &mut Vec<u8>) {
        self.width.encode(out);
        self.height.encode(out);
        assert(out@ =~= old(out)@ + Self::encoding(self.deep_view()));
    }

    fn decode(input: &[u8], pos: usize) -> (r: Decoded<ViewportResizedData>) {
        let (width, at1) = u32::decode(input, pos)?;
        let (height, end) = u32::decode(input, at1)?;
        Ok((ViewportResizedData { width, height }, end))
    }

    proof fn lemma_roundtrip(v: ViewportResizedData, s: Seq<u8>, pos: int) {
        let e_width = u32::encoding(v.width);
        let e_height = u32::encoding(v.height);
        lemma_holds_at_concat(s, pos, e_width, e_height);
        let at1 = pos + e_width.len();
        u32::lemma_roundtrip(v.width, s, pos);
        u32::lemma_roundtrip(v.height, s, at1);
    }
}

impl Wire for ScrollOffsetChangedData {
    /// The fields in the order of their declaration.
    open spec fn encoding(v: ScrollOffsetChangedData) -> Seq<u8> {
        u32::encoding(v.scroll_x_offset)
            + u32::encoding(v.scroll_y_offset)
    }

    open spec fn decoding(s: Seq<u8>, pos: int) -> Decoding<ScrollOffsetChangedData> {
        match u32::decoding(s, pos) {
            Ok((scroll_x_offset, at1)) => match u32::decoding(s, at1) {
                Ok((scroll_y_offset, end)) => Ok(
                    (ScrollOffsetChangedData { scroll_x_offset, scroll_y_offset }, end),
                ),
                Err(e) => Err(e),
            },
            Err(e) => Err(e),
        }
    }

    open spec fn wf(v: ScrollOffsetChangedData) -> bool {
        true
    }

    fn encode(&self, out: &mut Vec<u8>) {
        self.scroll_x_offset.encode(out);
        self.scroll_y_offset.encode(out);
        assert(out@ =~= old(out)@ + Self::encoding(self.deep_view()));
    }

    fn decode(input: &[u8], pos: usize) -> (r: Decoded<ScrollOffsetChangedData>) {
        let (scroll_x_offset, at1) = u32::decode(input, pos)?;
        let (scroll_y_offset, end) = u32::decode(input, at1)?;
        Ok((ScrollOffsetChangedData { scroll_x_offset, scroll_y_offset }, end))
    }

    proof fn lemma_roundtrip(v: ScrollOffsetChangedData, s: Seq<u8>, pos: int) {
        let e_scroll_x_offset = u32::encoding(v.scroll_x_offset);
        let e_scroll_y_offset = u32::encoding(v.scroll_y_offset);
        lemma_holds_at_concat(s, pos, e_scroll_x_offset, e_scroll_y_offset);
        let at1 = pos + e_scroll_x_offset.len();
        u32::lemma_roundtrip(v.scroll_x_offset, s, pos);
        u32::lemma_roundtrip(v.scroll_y_offset, s, at1);
    }
}

impl Wire for MouseMovedData {
    /// The fields in the order of their declaration.
    open spec fn encoding(v: MouseMovedData) -> Seq<u8> {
        u32::encoding(v.x)
            + u32::encoding(v.y)
    }

    open spec fn decoding(s: Seq<u8>, pos: int) -> Decoding<MouseMovedData> {
        match u32::decoding(s, pos) {
            Ok((x, at1)) => match u32::decoding(s, at1) {
                Ok((y, end)) => Ok((MouseMovedData { x, y }, end)),
                Err(e) => Err(e),
            },
            Err(e) => Err(e),
        }
    }

    open spec fn wf(v: MouseMovedData) -> bool {
        true
    }

    fn encode(&self, out: &mut Vec<u8>) {
        self.x.encode(out);
        self.y.encode(out);
        assert(out@ =~= old(out)@ + Self::encoding(self.deep_view()));
    }

    fn decode(input: &[u8], pos: usize) -> (r: Decoded<MouseMovedData>) {
        let (x, at1) = u32::decode(input, pos)?;
        let (y, end) = u32::decode(input, at1)?;
        Ok((MouseMovedData { x, y }, end))
    }

    proof fn lemma_roundtrip(v: MouseMovedData, s: Seq<u8>, pos: int) {
        let e_x = u32::encoding(v.x);
        let e_y = u32::encoding(v.y);
        lemma_holds_at_concat(s, pos, e_x, e_y);
        let at1 = pos + e_x.len();
        u32::lemma_roundtrip(v.x, s, pos);
        u32::lemma_roundtrip(v.y, s, at1);
    }
}

impl Wire for MouseClickedData {
    /// The fields in the order of their declaration.
    open spec fn encoding(v: MouseClickedData) -> Seq<u8> {
        u32::encoding(v.x)
            + u32::encoding(v.y)
    }

    open spec fn decoding(s: Seq<u8>, pos: int) -> Decoding<MouseClickedData> {
        match u32::decoding(s, pos) {
            Ok((x, at1)) => match u32::decoding(s, at1) {
                Ok((y, end)) => Ok((MouseClickedData { x, y }, end)),
                Err(e) => Err(e),
            },
            Err(e) => Err(e),
        }
    }

    open spec fn wf(v: MouseClickedData) -> bool {
        true
    }

    fn encode(&self, out: &mut Vec<u8>) {
        self.x.encode(out);
        self.y.encode(out);
        assert(out@ =~= old(out)@ + Self::encoding(self.deep_view()));
    }

    fn decode(input: &[u8], pos: usize) -> (r: Decoded<MouseClickedData>) {
        let (x, at1) = u32::decode(input, pos)?;
        let (y, end) = u32::decode(input, at1)?;
        Ok((MouseClickedData { x, y }, end))
    }

    proof fn lemma_roundtrip(v: MouseClickedData, s: Seq<u8>, pos: int) {
        let e_x = u32::encoding(v.x);
        let e_y = u32::encoding(v.y);
        lemma_holds_at_concat(s, pos, e_x, e_y);
        let at1 = pos + e_x.len();
        u32::lemma_roundtrip(v.x, s, pos);
        u32::lemma_roundtrip(v.y, s, at1);
    }
}

impl Wire for KeyPressedData {
    /// The fields in the order of their declaration.
    open spec fn encoding(v: KeyPressedDataView) -> Seq<u8> {
        String::encoding(v.code)
            + bool::encoding(v.alt_key)
            + bool::encoding(v.ctrl_key)
            + bool::encoding(v.meta_key)
            + bool::encoding(v.shift_key)
    }

    open spec fn decoding(s: Seq<u8>, pos: int) -> Decoding<KeyPressedDataView> {
        match String::decoding(s, pos) {
            Ok((code, at1)) => match bool::decoding(s, at1) {
                Ok((alt_key, at2)) => match bool::decoding(s, at2) {
                    Ok((ctrl_key, at3)) => match bool::decoding(s, at3) {
                        Ok((meta_key, at4)) => match bool::decoding(s, at4) {
                            Ok((shift_key, end)) => Ok(
                                (
                                    KeyPressedDataView {
                                        code,
                                        alt_key,
                                        ctrl_key,
                                        meta_key,
                                        shift_key,
                                    },
                                    end,
                                ),
                            ),
                            Err(e) => Err(e),
                        },
                        Err(e) => Err(e),
                    },
                    Err(e) => Err(e),
                },
                Err(e) => Err(e),
            },
            Err(e) => Err(e),
        }
    }

    open spec fn wf(v: KeyPressedDataView) -> bool {
        String::wf(v.code)
    }

    fn encode(&self, out: &mut Vec<u8>) {
        self.code.encode(out);
        self.alt_key.encode(out);
        self.ctrl_key.encode(out);
        self.meta_key.encode(out);
        self.shift_key.encode(out);
        assert(out@ =~= old(out)@ + Self::encoding(self.deep_view()));
    }

    fn decode(input: &[u8], pos: usize) -> (r: Decoded<KeyPressedData>) {
        let (code, at1) = String::decode(input, pos)?;
        let (alt_key, at2) = bool::decode(input, at1)?;
        let (ctrl_key, at3) = bool::decode(input, at2)?;
        let (meta_key, at4) = bool::decode(input, at3)?;
        let (shift_key, end) = bool::decode(input, at4)?;
        Ok((KeyPressedData { code, alt_key, ctrl_key, meta_key, shift_key }, end))
    }

    proof fn lemma_roundtrip(v: KeyPressedDataView, s: Seq<u8>, pos: int) {
        let e_code = String::encoding(v.code);
        let e_alt_key = bool::encoding(v.alt_key);
        let e_ctrl_key = bool::encoding(v.ctrl_key);
        let e_meta_key = bool::encoding(v.meta_key);
        let e_shift_key = bool::encoding(v.shift_key);
        lemma_holds_at_concat(s, pos, e_code + e_alt_key + e_ctrl_key + e_meta_key, e_shift_key);
        lemma_holds_at_concat(s, pos, e_code + e_alt_key + e_ctrl_key, e_meta_key);
        lemma_holds_at_concat(s, pos, e_code + e_alt_key, e_ctrl_key);
        lemma_holds_at_concat(s, pos, e_code, e_alt_key);
        let at1 = pos + e_code.len();
        let at2 = at1 + e_alt_key.len();
        let at3 = at2 + e_ctrl_key.len();
        let at4 = at3 + e_meta_key.len();
        String::lemma_roundtrip(v.code, s, pos);
        bool::lemma_roundtrip(v.alt_key, s, at1);
        bool::lemma_roundtrip(v.ctrl_key, s, at2);
        bool::lemma_roundtrip(v.meta_key, s, at3);
        bool::lemma_roundtrip(v.shift_key, s, at4);
    }
}

impl Wire for ElementFocusedData {
    /// The fields in the order of their declaration.
    open spec fn encoding(v: ElementFocusedData) -> Seq<u8> {
        u32::encoding(v.node_id)
    }

    open spec fn decoding(s: Seq<u8>, pos: int) -> Decoding<ElementFocusedData> {
        match u32::decoding(s, pos) {
            Ok((node_id, end)) => Ok((ElementFocusedData { node_id }, end)),
            Err(e) => Err(e),
        }
    }

    open spec fn wf(v: ElementFocusedData) -> bool {
        true
    }

    fn encode(&self, out: &mut Vec<u8>) {
        self.node_id.encode(out);
    }

    fn decode(input: &[u8], pos: usize) -> (r: Decoded<ElementFocusedData>) {
        let (node_id, end) = u32::decode(input, pos)?;
        Ok((ElementFocusedData { node_id }, end))
    }

    proof fn lemma_roundtrip(v: ElementFocusedData, s: Seq<u8>, pos: int) {
        u32::lemma_roundtrip(v.node_id, s, pos);
    }
}

impl Wire for TextSelectionChangedData {
    /// The fields in the order of their declaration.
    open spec fn encoding(v: TextSelectionChangedData) -> Seq<u8> {
        u32::encoding(v.selection_start_node_id)
            + u32::encoding(v.selection_start_offset)
            + u32::encoding(v.selection_end_node_id)
            + u32::encoding(v.selection_end_offset)
    }

    open spec fn decoding(s: Seq<u8>, pos: int) -> Decoding<TextSelectionChangedData> {
        match u32::decoding(s, pos) {
            Ok((selection_start_node_id, at1)) => match u32::decoding(s, at1) {
                Ok((selection_start_offset, at2)) => match u32::decoding(s, at2) {
                    Ok((selection_end_node_id, at3)) => match u32::decoding(s, at3) {
                        Ok((selection_end_offset, end)) => Ok(
                            (
                                TextSelectionChangedData {
                                    selection_start_node_id,
                                    selection_start_offset,
                                    selection_end_node_id,
                                    selection_end_offset,
                                },
                                end,
                            ),
                        ),
                        Err(e) => Err(e),
                    },
                    Err(e) => Err(e),
                },
                Err(e) => Err(e),
            },
            Err(e) => Err(e),
        }
    }

    open spec fn wf(v: TextSelectionChangedData) -> bool {
        true
    }

    fn encode(&self, out: &mut Vec<u8>) {
        self.selection_start_node_id.encode(out);
        self.selection_start_offset.encode(out);
        self.selection_end_node_id.encode(out);
        self.selection_end_offset.encode(out);
        assert(out@ =~= old(out)@ + Self::encoding(self.deep_view()));
    }

    fn decode(input: &[u8], pos: usize) -> (r: Decoded<TextSelectionChangedData>) {
        let (selection_start_node_id, at1) = u32::decode(input, pos)?;
        let (selection_start_offset, at2) = u32::decode(input, at1)?;
        let (selection_end_node_id, at3) = u32::decode(input, at2)?;
        let (selection_end_offset, end) = u32::decode(input, at3)?;
        Ok(
            (
                TextSelectionChangedData {
                    selection_start_node_id,
                    selection_start_offset,
                    selection_end_node_id,
                    selection_end_offset,
                },
                end,
            ),
        )
    }

    proof fn lemma_roundtrip(v: TextSelectionChangedData, s: Seq<u8>, pos: int) {
        let e_selection_start_node_id = u32::encoding(v.selection_start_node_id);
        let e_selection_start_offset = u32::encoding(v.selection_start_offset);
        let e_selection_end_node_id = u32::encoding(v.selection_end_node_id);
        let e_selection_end_offset = u32::encoding(v.selection_end_offset);
        lemma_holds_at_concat(
            s,
            pos,
            e_selection_start_node_id + e_selection_start_offset + e_selection_end_node_id,
            e_selection_end_offset,
        );
        lemma_holds_at_concat(
            s,
            pos,
            e_selection_start_node_id + e_selection_start_offset,
            e_selection_end_node_id,
        );
        lemma_holds_at_concat(s, pos, e_selection_start_node_id, e_selection_start_offset);
        let at1 = pos + e_selection_start_node_id.len();
        let at2 = at1 + e_selection_start_offset.len();
        let at3 = at2 + e_selection_end_node_id.len();
        u32::lemma_roundtrip(v.selection_start_node_id, s, pos);
        u32::lemma_roundtrip(v.selection_start_offset, s, at1);
        u32::lemma_roundtrip(v.selection_end_node_id, s, at2);
        u32::lemma_roundtrip(v.selection_end_offset, s, at3);
    }
}

impl Wire for DomNodeAddedData {
    /// The fields in the order of their declaration.
    open spec fn encoding(v: DomNodeAddedDataView) -> Seq<u8> {
        u32::encoding(v.parent_node_id)
            + u32::encoding(v.index)
            + VNode::encoding(v.node)
    }

    open spec fn decoding(s: Seq<u8>, pos: int) -> Decoding<DomNodeAddedDataView> {
        match u32::decoding(s, pos) {
            Ok((parent_node_id, at1)) => match u32::decoding(s, at1) {
                Ok((index, at2)) => match VNode::decoding(s, at2) {
                    Ok((node, end)) => Ok(
                        (DomNodeAddedDataView { parent_node_id, index, node }, end),
                    ),
                    Err(e) => Err(e),
                },
                Err(e) => Err(e),
            },
            Err(e) => Err(e),
        }
    }

    open spec fn wf(v: DomNodeAddedDataView) -> bool {
        VNode::wf(v.node)
    }

    fn encode(&self, out: &mut Vec<u8>) {
        self.parent_node_id.encode(out);
        self.index.encode(out);
        self.node.encode(out);
        assert(out@ =~= old(out)@ + Self::encoding(self.deep_view()));
    }

    fn decode(input: &[u8], pos: usize) -> (r: Decoded<DomNodeAddedData>) {
        let (parent_node_id, at1) = u32::decode(input, pos)?;
        let (index, at2) = u32::decode(input, at1)?;
        let (node, end) = VNode::decode(input, at2)?;
        Ok((DomNodeAddedData { parent_node_id, index, node }, end))
    }

    proof fn lemma_roundtrip(v: DomNodeAddedDataView, s: Seq<u8>, pos: int) {
        let e_parent_node_id = u32::encoding(v.parent_node_id);
        let e_index = u32::encoding(v.index);
        let e_node = VNode::encoding(v.node);
        lemma_holds_at_concat(s, pos, e_parent_node_id + e_index, e_node);
        lemma_holds_at_concat(s, pos, e_parent_node_id, e_index);
        let at1 = pos + e_parent_node_id.len();
        let at2 = at1 + e_index.len();
        u32::lemma_roundtrip(v.parent_node_id, s, pos);
        u32::lemma_roundtrip(v.index, s, at1);
        VNode::lemma_roundtrip(v.node, s, at2);
    }
}

impl Wire for DomNodeRemovedData {
    /// The fields in the order of their declaration.
    open spec fn encoding(v: DomNodeRemovedData) -> Seq<u8> {
        u32::encoding(v.node_id)
    }

    open spec fn decoding(s: Seq<u8>, pos: int) -> Decoding<DomNodeRemovedData> {
        match u32::decoding(s, pos) {
            Ok((node_id, end)) => Ok((DomNodeRemovedData { node_id }, end)),
            Err(e) => Err(e),
        }
    }

    open spec fn wf(v: DomNodeRemovedData) -> bool {
        true
    }

    fn encode(&self, out: &mut Vec<u8>) {
        self.node_id.encode(out);
    }

    fn decode(input: &[u8], pos: usize) -> (r: Decoded<DomNodeRemovedData>) {
        let (node_id, end) = u32::decode(input, pos)?;
        Ok((DomNodeRemovedData { node_id }, end))
    }

    proof fn lemma_roundtrip(v: DomNodeRemovedData, s: Seq<u8>, pos: int) {
        u32::lemma_roundtrip(v.node_id, s, pos);
    }
}

impl Wire for DomAttributeChangedData {
    /// The fields in the order of their declaration.
    open spec fn encoding(v: DomAttributeChangedDataView) -> Seq<u8> {
        u32::encoding(v.node_id)
            + String::encoding(v.attribute_name)
            + String::encoding(v.attribute_value)
    }

    open spec fn decoding(s: Seq<u8>, pos: int) -> Decoding<DomAttributeChangedDataView> {
        match u32::decoding(s, pos) {
            Ok((node_id, at1)) => match String::decoding(s, at1) {
                Ok((attribute_name, at2)) => match String::decoding(s, at2) {
                    Ok((attribute_value, end)) => Ok(
                        (
                            DomAttributeChangedDataView {
                                node_id,
                                attribute_name,
                                attribute_value,
                            },
                            end,
                        ),
                    ),
                    Err(e) => Err(e),
                },
                Err(e) => Err(e),
            },
            Err(e) => Err(e),
        }
    }

    open spec fn wf(v: DomAttributeChangedDataView) -> bool {
        &&& String::wf(v.attribute_name)
        &&& String::wf(v.attribute_value)
    }

    fn encode(&self, out: &mut Vec<u8>) {
        self.node_id.encode(out);
        self.attribute_name.encode(out);
        self.attribute_value.encode(out);
        assert(out@ =~= old(out)@ + Self::encoding(self.deep_view()));
    }

    fn decode(input: &[u8], pos: usize) -> (r: Decoded<DomAttributeChangedData>) {
        let (node_id, at1) = u32::decode(input, pos)?;
        let (attribute_name, at2) = String::decode(input, at1)?;
        let (attribute_value, end) = String::decode(input, at2)?;
        Ok((DomAttributeChangedData { node_id, attribute_name, attribute_value }, end))
    }

    proof fn lemma_roundtrip(v: DomAttributeChangedDataView, s: Seq<u8>, pos: int) {
        let e_node_id = u32::encoding(v.node_id);
        let e_attribute_name = String::encoding(v.attribute_name);
        let e_attribute_value = String::encoding(v.attribute_value);
        lemma_holds_at_concat(s, pos, e_node_id + e_attribute_name, e_attribute_value);
        lemma_holds_at_concat(s, pos, e_node_id, e_attribute_name);
        let at1 = pos + e_node_id.len();
        let at2 = at1 + e_attribute_name.len();
        u32::lemma_roundtrip(v.node_id, s, pos);
        String::lemma_roundtrip(v.attribute_name, s, at1);
        String::lemma_roundtrip(v.attribute_value, s, at2);
    }
}

impl Wire for DomAttributeRemovedData {
    /// The fields in the order of their declaration.
    open spec fn encoding(v: DomAttributeRemovedDataView) -> Seq<u8> {
        u32::encoding(v.node_id)
            + String::encoding(v.attribute_name)
    }

    open spec fn decoding(s: Seq<u8>, pos: int) -> Decoding<DomAttributeRemovedDataView> {
        match u32::decoding(s, pos) {
            Ok((node_id, at1)) => match String::decoding(s, at1) {
                Ok((attribute_name, end)) => Ok(
                    (DomAttributeRemovedDataView { node_id, attribute_name }, end),
                ),
                Err(e) => Err(e),
            },
            Err(e) => Err(e),
        }
    }

    open spec fn wf(v: DomAttributeRemovedDataView) -> bool {
        String::wf(v.attribute_name)
    }

    fn encode(&self, out: &mut Vec<u8>) {
        self.node_id.encode(out);
        self.attribute_name.encode(out);
        assert(out@ =~= old(out)@ + Self::encoding(self.deep_view()));
    }

    fn decode(input: &[u8], pos: usize) -> (r: Decoded<DomAttributeRemovedData>) {
        let (node_id, at1) = u32::decode(input, pos)?;
        let (attribute_name, end) = String::decode(input, at1)?;
        Ok((DomAttributeRemovedData { node_id, attribute_name }, end))
    }

    proof fn lemma_roundtrip(v: DomAttributeRemovedDataView, s: Seq<u8>, pos: int) {
        let e_node_id = u32::encoding(v.node_id);
        let e_attribute_name = String::encoding(v.attribute_name);
        lemma_holds_at_concat(s, pos, e_node_id, e_attribute_name);
        let at1 = pos + e_node_id.len();
        u32::lemma_roundtrip(v.node_id, s, pos);
        String::lemma_roundtrip(v.attribute_name, s, at1);
    }
}

impl Wire for TextInsertOperationData {
    /// The fields in the order of their declaration.
    open spec fn encoding(v: TextInsertOperationDataView) -> Seq<u8> {
        u32::encoding(v.index)
            + String::encoding(v.text)
    }

    open spec fn decoding(s: Seq<u8>, pos: int) -> Decoding<TextInsertOperationDataView> {
        match u32::decoding(s, pos) {
            Ok((index, at1)) => match String::decoding(s, at1) {
                Ok((text, end)) => Ok((TextInsertOperationDataView { index, text }, end)),
                Err(e) => Err(e),
            },
            Err(e) => Err(e),
        }
    }

    open spec fn wf(v: TextInsertOperationDataView) -> bool {
        String::wf(v.text)
    }

    fn encode(&self, out: &mut Vec<u8>) {
        self.index.encode(out);
        self.text.encode(out);
        assert(out@ =~= old(out)@ + Self::encoding(self.deep_view()));
    }

    fn decode(input: &[u8], pos: usize) -> (r: Decoded<TextInsertOperationData>) {
        let (index, at1) = u32::decode(input, pos)?;
        let (text, end) = String::decode(input, at1)?;
        Ok((TextInsertOperationData { index, text }, end))
    }

    proof fn lemma_roundtrip(v: TextInsertOperationDataView, s: Seq<u8>, pos: int) {
        let e_index = u32::encoding(v.index);
        let e_text = String::encoding(v.text);
        lemma_holds_at_concat(s, pos, e_index, e_text);
        let at1 = pos + e_index.len();
        u32::lemma_roundtrip(v.index, s, pos);
        String::lemma_roundtrip(v.text, s, at1);
    }
}

impl Wire for TextRemoveOperationData {
    /// The fields in the order of their declaration.
    open spec fn encoding(v: TextRemoveOperationData) -> Seq<u8> {
        u32::encoding(v.index)
            + u32::encoding(v.length)
    }

    open spec fn decoding(s: Seq<u8>, pos: int) -> Decoding<TextRemoveOperationData> {
        match u32::decoding(s, pos) {
            Ok((index, at1)) => match u32::decoding(s, at1) {
                Ok((length, end)) => Ok((TextRemoveOperationData { index, length }, end)),
                Err(e) => Err(e),
            },
            Err(e) => Err(e),
        }
    }

    open spec fn wf(v: TextRemoveOperationData) -> bool {
        true
    }

    fn encode(&self, out: &mut Vec<u8>) {
        self.index.encode(out);
        self.length.encode(out);
        assert(out@ =~= old(out)@ + Self::encoding(self.deep_view()));
    }

    fn decode(input: &[u8], pos: usize) -> (r: Decoded<TextRemoveOperationData>) {
        let (index, at1) = u32::decode(input, pos)?;
        let (length, end) = u32::decode(input, at1)?;
        Ok((TextRemoveOperationData { index, length }, end))
    }

    proof fn lemma_roundtrip(v: TextRemoveOperationData, s: Seq<u8>, pos: int) {
        let e_index = u32::encoding(v.index);
        let e_length = u32::encoding(v.length);
        lemma_holds_at_concat(s, pos, e_index, e_length);
        let at1 = pos + e_index.len();
        u32::lemma_roundtrip(v.index, s, pos);
        u32::lemma_roundtrip(v.length, s, at1);
    }
}

impl Wire for TextOperationData {
    /// The tag of the variant in four bytes, then what the variant holds.
    open spec fn encoding(v: TextOperationDataView) -> Seq<u8> {
        match v {
            TextOperationDataView::Insert(d) => be32(0) + TextInsertOperationData::encoding(d),
            TextOperationDataView::Remove(d) => be32(1) + TextRemoveOperationData::encoding(d),
        }
    }

    open spec fn decoding(s: Seq<u8>, pos: int) -> Decoding<TextOperationDataView> {
        match u32::decoding(s, pos) {
            Ok((tag, start)) => if tag == 0 {
                match TextInsertOperationData::decoding(s, start) {
                    Ok((d, end)) => Ok((TextOperationDataView::Insert(d), end)),
                    Err(e) => Err(e),
                }
            } else if tag == 1 {
                match TextRemoveOperationData::decoding(s, start) {
                    Ok((d, end)) => Ok((TextOperationDataView::Remove(d), end)),
                    Err(e) => Err(e),
                }
            } else {
                Err(DecodeError::UnknownTag)
            },
            Err(e) => Err(e),
        }
    }

    open spec fn wf(v: TextOperationDataView) -> bool {
        match v {
            TextOperationDataView::Insert(d) => TextInsertOperationData::wf(d),
            TextOperationDataView::Remove(_) => true,
        }
    }

    fn encode(&self, out: &mut Vec<u8>) {
        match self {
            TextOperationData::Insert(d) => {
                0u32.encode(out);
                d.encode(out);
            },
            TextOperationData::Remove(d) => {
                1u32.encode(out);
                d.encode(out);
            },
        }
        assert(out@ =~= old(out)@ + Self::encoding(self.deep_view()));
    }

    fn decode(input: &[u8], pos: usize) -> (r: Decoded<TextOperationData>) {
        let (tag, start) = u32::decode(input, pos)?;
        if tag == 0 {
            let (d, end) = TextInsertOperationData::decode(input, start)?;
            Ok((TextOperationData::Insert(d), end))
        } else if tag == 1 {
            let (d, end) = TextRemoveOperationData::decode(input, start)?;
            Ok((TextOperationData::Remove(d), end))
        } else {
            Err(DecodeError::UnknownTag)
        }
    }

    proof fn lemma_roundtrip(v: TextOperationDataView, s: Seq<u8>, pos: int) {
        match v {
            TextOperationDataView::Insert(d) => {
                lemma_tagged_roundtrip::<TextInsertOperationData>(0, d, s, pos);
            },
            TextOperationDataView::Remove(d) => {
                lemma_tagged_roundtrip::<TextRemoveOperationData>(1, d, s, pos);
            },
        }
    }
}

impl Wire for DomTextChangedData {
    /// The fields in the order of their declaration.
    open spec fn encoding(v: DomTextChangedDataView) -> Seq<u8> {
        u32::encoding(v.node_id)
            + Vec::<TextOperationData>::encoding(v.operations)
    }

    open spec fn decoding(s: Seq<u8>, pos: int) -> Decoding<DomTextChangedDataView> {
        match u32::decoding(s, pos) {
            Ok((node_id, at1)) => match Vec::<TextOperationData>::decoding(s, at1) {
                Ok((operations, end)) => Ok((DomTextChangedDataView { node_id, operations }, end)),
                Err(e) => Err(e),
            },
            Err(e) => Err(e),
        }
    }

    open spec fn wf(v: DomTextChangedDataView) -> bool {
        Vec::<TextOperationData>::wf(v.operations)
    }

    fn encode(&self, out: &mut Vec<u8>) {
        self.node_id.encode(out);
        self.operations.encode(out);
        assert(out@ =~= old(out)@ + Self::encoding(self.deep_view()));
    }

    fn decode(input: &[u8], pos: usize) -> (r: Decoded<DomTextChangedData>) {
        let (node_id, at1) = u32::decode(input, pos)?;
        let (operations, end) = Vec::<TextOperationData>::decode(input, at1)?;
        Ok((DomTextChangedData { node_id, operations }, end))
    }

    proof fn lemma_roundtrip(v: DomTextChangedDataView, s: Seq<u8>, pos: int) {
        let e_node_id = u32::encoding(v.node_id);
        let e_operations = Vec::<TextOperationData>::encoding(v.operations);
        lemma_holds_at_concat(s, pos, e_node_id, e_operations);
        let at1 = pos + e_node_id.len();
        u32::lemma_roundtrip(v.node_id, s, pos);
        Vec::<TextOperationData>::lemma_roundtrip(v.operations, s, at1);
    }
}

impl Wire for DomNodeResizedData {
    /// The fields in the order of their declaration.
    open spec fn encoding(v: DomNodeResizedData) -> Seq<u8> {
        u32::encoding(v.node_id)
            + u32::encoding(v.width)
            + u32::encoding(v.height)
    }

    open spec fn decoding(s: Seq<u8>, pos: int) -> Decoding<DomNodeResizedData> {
        match u32::decoding(s, pos) {
            Ok((node_id, at1)) => match u32::decoding(s, at1) {
                Ok((width, at2)) => match u32::decoding(s, at2) {
                    Ok((height, end)) => Ok((DomNodeResizedData { node_id, width, height }, end)),
                    Err(e) => Err(e),
                },
                Err(e) => Err(e),
            },
            Err(e) => Err(e),
        }
    }

    open spec fn wf(v: DomNodeResizedData) -> bool {
        true
    }

    fn encode(&self, out: &mut Vec<u8>) {
        self.node_id.encode(out);
        self.width.encode(out);
        self.height.encode(out);
        assert(out@ =~= old(out)@ + Self::encoding(self.deep_view()));
    }

    fn decode(input: &[u8], pos: usize) -> (r: Decoded<DomNodeResizedData>) {
        let (node_id, at1) = u32::decode(input, pos)?;
        let (width, at2) = u32::decode(input, at1)?;
        let (height, end) = u32::decode(input, at2)?;
        Ok((DomNodeResizedData { node_id, width, height }, end))
    }

    proof fn lemma_roundtrip(v: DomNodeResizedData, s: Seq<u8>, pos: int) {
        let e_node_id = u32::encoding(v.node_id);
        let e_width = u32::encoding(v.width);
        let e_height = u32::encoding(v.height);
        lemma_holds_at_concat(s, pos, e_node_id + e_width, e_height);
        lemma_holds_at_concat(s, pos, e_node_id, e_width);
        let at1 = pos + e_node_id.len();
        let at2 = at1 + e_width.len();
        u32::lemma_roundtrip(v.node_id, s, pos);
        u32::lemma_roundtrip(v.width, s, at1);
        u32::lemma_roundtrip(v.height, s, at2);
    }
}

impl Wire for DomNodePropertyChangedData {
    /// The fields in the order of their declaration.
    open spec fn encoding(v: DomNodePropertyChangedDataView) -> Seq<u8> {
        u32::encoding(v.node_id)
            + String::encoding(v.property_name)
            + String::encoding(v.property_value)
    }

    open spec fn decoding(s: Seq<u8>, pos: int) -> Decoding<DomNodePropertyChangedDataView> {
        match u32::decoding(s, pos) {
            Ok((node_id, at1)) => match String::decoding(s, at1) {
                Ok((property_name, at2)) => match String::decoding(s, at2) {
                    Ok((property_value, end)) => Ok(
                        (
                            DomNodePropertyChangedDataView {
                                node_id,
                                property_name,
                                property_value,
                            },
                            end,
                        ),
                    ),
                    Err(e) => Err(e),
                },
                Err(e) => Err(e),
            },
            Err(e) => Err(e),
        }
    }

    open spec fn wf(v: DomNodePropertyChangedDataView) -> bool {
        &&& String::wf(v.property_name)
        &&& String::wf(v.property_value)
    }

    fn encode(&self, out: &mut Vec<u8>) {
        self.node_id.encode(out);
        self.property_name.encode(out);
        self.property_value.encode(out);
        assert(out@ =~= old(out)@ + Self::encoding(self.deep_view()));
    }

    fn decode(input: &[u8], pos: usize) -> (r: Decoded<DomNodePropertyChangedData>) {
        let (node_id, at1) = u32::decode(input, pos)?;
        let (property_name, at2) = String::decode(input, at1)?;
        let (property_value, end) = String::decode(input, at2)?;
        Ok((DomNodePropertyChangedData { node_id, property_name, property_value }, end))
    }

    proof fn lemma_roundtrip(v: DomNodePropertyChangedDataView, s: Seq<u8>, pos: int) {
        let e_node_id = u32::encoding(v.node_id);
        let e_property_name = String::encoding(v.property_name);
        let e_property_value = String::encoding(v.property_value);
        lemma_holds_at_concat(s, pos, e_node_id + e_property_name, e_property_value);
        lemma_holds_at_concat(s, pos, e_node_id, e_property_name);
        let at1 = pos + e_node_id.len();
        let at2 = at1 + e_property_name.len();
        u32::lemma_roundtrip(v.node_id, s, pos);
        String::lemma_roundtrip(v.property_name, s, at1);
        String::lemma_roundtrip(v.property_value, s, at2);
    }
}

impl Wire for AssetFetchError {
    /// The tag of the variant in four bytes, then what the variant holds.
    open spec fn encoding(v: AssetFetchErrorView) -> Seq<u8> {
        match v {
            AssetFetchErrorView::NoError => be32(0),
            AssetFetchErrorView::CORS => be32(1),
            AssetFetchErrorView::Network => be32(2),
            AssetFetchErrorView::Http => be32(3),
            AssetFetchErrorView::Unknown(d) => be32(4) + String::encoding(d),
        }
    }

    open spec fn decoding(s: Seq<u8>, pos: int) -> Decoding<AssetFetchErrorView> {
        match u32::decoding(s, pos) {
            Ok((tag, start)) => if tag == 0 {
                Ok((AssetFetchErrorView::NoError, start))
            } else if tag == 1 {
                Ok((AssetFetchErrorView::CORS, start))
            } else if tag == 2 {
                Ok((AssetFetchErrorView::Network, start))
            } else if tag == 3 {
                Ok((AssetFetchErrorView::Http, start))
            } else if tag == 4 {
                match String::decoding(s, start) {
                    Ok((d, end)) => Ok((AssetFetchErrorView::Unknown(d), end)),
                    Err(e) => Err(e),
                }
            } else {
                Err(DecodeError::UnknownTag)
            },
            Err(e) => Err(e),
        }
    }

    open spec fn wf(v: AssetFetchErrorView) -> bool {
        match v {
            AssetFetchErrorView::NoError => true,
            AssetFetchErrorView::CORS => true,
            AssetFetchErrorView::Network => true,
            AssetFetchErrorView::Http => true,
            AssetFetchErrorView::Unknown(d) => String::wf(d),
        }
    }

    fn encode(&self, out: &mut Vec<u8>) {
        match self {
            AssetFetchError::NoError => {
                0u32.encode(out);
            },
            AssetFetchError::CORS => {
                1u32.encode(out);
            },
            AssetFetchError::Network => {
                2u32.encode(out);
            },
            AssetFetchError::Http => {
                3u32.encode(out);
            },
            AssetFetchError::Unknown(d) => {
                4u32.encode(out);
                d.encode(out);
            },
        }
        assert(out@ =~= old(out)@ + Self::encoding(self.deep_view()));
    }

    fn decode(input: &[u8], pos: usize) -> (r: Decoded<AssetFetchError>) {
        let (tag, start) = u32::decode(input, pos)?;
        if tag == 0 {
            Ok((AssetFetchError::NoError, start))
        } else if tag == 1 {
            Ok((AssetFetchError::CORS, start))
        } else if tag == 2 {
            Ok((AssetFetchError::Network, start))
        } else if tag == 3 {
            Ok((AssetFetchError::Http, start))
        } else if tag == 4 {
            let (d, end) = String::decode(input, start)?;
            Ok((AssetFetchError::Unknown(d), end))
        } else {
            Err(DecodeError::UnknownTag)
        }
    }

    proof fn lemma_roundtrip(v: AssetFetchErrorView, s: Seq<u8>, pos: int) {
        match v {
            AssetFetchErrorView::NoError => {
                u32::lemma_roundtrip(0, s, pos);
            },
            AssetFetchErrorView::CORS => {
                u32::lemma_roundtrip(1, s, pos);
            },
            AssetFetchErrorView::Network => {
                u32::lemma_roundtrip(2, s, pos);
            },
            AssetFetchErrorView::Http => {
                u32::lemma_roundtrip(3, s, pos);
            },
            AssetFetchErrorView::Unknown(d) => {
                lemma_tagged_roundtrip::<String>(4, d, s, pos);
            },
        }
    }
}

impl Wire for AssetData {
    /// The fields in the order of their declaration.
    open spec fn encoding(v: AssetDataView) -> Seq<u8> {
        u32::encoding(v.asset_id)
            + String::encoding(v.url)
            + Option::<String>::encoding(v.mime)
            + bytes_encoding(v.buf)
            + AssetFetchError::encoding(v.fetch_error)
    }

    open spec fn decoding(s: Seq<u8>, pos: int) -> Decoding<AssetDataView> {
        match u32::decoding(s, pos) {
            Ok((asset_id, at1)) => match String::decoding(s, at1) {
                Ok((url, at2)) => match Option::<String>::decoding(s, at2) {
                    Ok((mime, at3)) => match bytes_decoding(s, at3) {
                        Ok((buf, at4)) => match AssetFetchError::decoding(s, at4) {
                            Ok((fetch_error, end)) => Ok(
                                (AssetDataView { asset_id, url, mime, buf, fetch_error }, end),
                            ),
                            Err(e) => Err(e),
                        },
                        Err(e) => Err(e),
                    },
                    Err(e) => Err(e),
                },
                Err(e) => Err(e),
            },
            Err(e) => Err(e),
        }
    }

    open spec fn wf(v: AssetDataView) -> bool {
        &&& String::wf(v.url)
        &&& Option::<String>::wf(v.mime)
        &&& bytes_wf(v.buf)
        &&& AssetFetchError::wf(v.fetch_error)
    }

    fn encode(&self, out: &mut Vec<u8>) {
        self.asset_id.encode(out);
        self.url.encode(out);
        self.mime.encode(out);
        encode_bytes(self.buf.as_slice(), out);
        self.fetch_error.encode(out);
        assert(out@ =~= old(out)@ + Self::encoding(self.deep_view()));
    }

    fn decode(input: &[u8], pos: usize) -> (r: Decoded<AssetData>) {
        let (asset_id, at1) = u32::decode(input, pos)?;
        let (url, at2) = String::decode(input, at1)?;
        let (mime, at3) = Option::<String>::decode(input, at2)?;
        let (buf, at4) = decode_bytes(input, at3)?;
        let (fetch_error, end) = AssetFetchError::decode(input, at4)?;
        Ok((AssetData { asset_id, url, mime, buf, fetch_error }, end))
    }

    proof fn lemma_roundtrip(v: AssetDataView, s: Seq<u8>, pos: int) {
        let e_asset_id = u32::encoding(v.asset_id);
        let e_url = String::encoding(v.url);
        let e_mime = Option::<String>::encoding(v.mime);
        let e_buf = bytes_encoding(v.buf);
        let e_fetch_error = AssetFetchError::encoding(v.fetch_error);
        lemma_holds_at_concat(s, pos, e_asset_id + e_url + e_mime + e_buf, e_fetch_error);
        lemma_holds_at_concat(s, pos, e_asset_id + e_url + e_mime, e_buf);
        lemma_holds_at_concat(s, pos, e_asset_id + e_url, e_mime);
        lemma_holds_at_concat(s, pos, e_asset_id, e_url);
        let at1 = pos + e_asset_id.len();
        let at2 = at1 + e_url.len();
        let at3 = at2 + e_mime.len();
        let at4 = at3 + e_buf.len();
        u32::lemma_roundtrip(v.asset_id, s, pos);
        String::lemma_roundtrip(v.url, s, at1);
        Option::<String>::lemma_roundtrip(v.mime, s, at2);
        lemma_bytes_roundtrip(v.buf, s, at3);
        AssetFetchError::lemma_roundtrip(v.fetch_error, s, at4);
    }
}

impl Wire for AdoptedStyleSheetsChangedData {
    /// The fields in the order of their declaration.
    open spec fn encoding(v: AdoptedStyleSheetsChangedDataView) -> Seq<u8> {
        Vec::<u32>::encoding(v.style_sheet_ids)
            + u32::encoding(v.added_count)
    }

    open spec fn decoding(s: Seq<u8>, pos: int) -> Decoding<AdoptedStyleSheetsChangedDataView> {
        match Vec::<u32>::decoding(s, pos) {
            Ok((style_sheet_ids, at1)) => match u32::decoding(s, at1) {
                Ok((added_count, end)) => Ok(
                    (AdoptedStyleSheetsChangedDataView { style_sheet_ids, added_count }, end),
                ),
                Err(e) => Err(e),
            },
            Err(e) => Err(e),
        }
    }

    open spec fn wf(v: AdoptedStyleSheetsChangedDataView) -> bool {
        Vec::<u32>::wf(v.style_sheet_ids)
    }

    fn encode(&self, out: &mut Vec<u8>) {
        self.style_sheet_ids.encode(out);
        self.added_count.encode(out);
        assert(out@ =~= old(out)@ + Self::encoding(self.deep_view()));
    }

    fn decode(input: &[u8], pos: usize) -> (r: Decoded<AdoptedStyleSheetsChangedData>) {
        let (style_sheet_ids, at1) = Vec::<u32>::decode(input, pos)?;
        let (added_count, end) = u32::decode(input, at1)?;
        Ok((AdoptedStyleSheetsChangedData { style_sheet_ids, added_count }, end))
    }

    proof fn lemma_roundtrip(v: AdoptedStyleSheetsChangedDataView, s: Seq<u8>, pos: int) {
        let e_style_sheet_ids = Vec::<u32>::encoding(v.style_sheet_ids);
        let e_added_count = u32::encoding(v.added_count);
        lemma_holds_at_concat(s, pos, e_style_sheet_ids, e_added_count);
        let at1 = pos + e_style_sheet_ids.len();
        Vec::<u32>::lemma_roundtrip(v.style_sheet_ids, s, pos);
        u32::lemma_roundtrip(v.added_count, s, at1);
    }
}

impl Wire for NewAdoptedStyleSheetData {
    /// The fields in the order of their declaration.
    open spec fn encoding(v: NewAdoptedStyleSheetDataView) -> Seq<u8> {
        VStyleSheet::encoding(v.style_sheet)
    }

    open spec fn decoding(s: Seq<u8>, pos: int) -> Decoding<NewAdoptedStyleSheetDataView> {
        match VStyleSheet::decoding(s, pos) {
            Ok((style_sheet, end)) => Ok((NewAdoptedStyleSheetDataView { style_sheet }, end)),
            Err(e) => Err(e),
        }
    }

    open spec fn wf(v: NewAdoptedStyleSheetDataView) -> bool {
        VStyleSheet::wf(v.style_sheet)
    }

    fn encode(&self, out: &mut Vec<u8>) {
        self.style_sheet.encode(out);
    }

    fn decode(input: &[u8], pos: usize) -> (r: Decoded<NewAdoptedStyleSheetData>) {
        let (style_sheet, end) = VStyleSheet::decode(input, pos)?;
        Ok((NewAdoptedStyleSheetData { style_sheet }, end))
    }

    proof fn lemma_roundtrip(v: NewAdoptedStyleSheetDataView, s: Seq<u8>, pos: int) {
        VStyleSheet::lemma_roundtrip(v.style_sheet, s, pos);
    }
}

impl Wire for ElementScrolledData {
    /// The fields in the order of their declaration.
    open spec fn encoding(v: ElementScrolledData) -> Seq<u8> {
        u32::encoding(v.node_id)
            + u32::encoding(v.scroll_x_offset)
            + u32::encoding(v.scroll_y_offset)
    }

    open spec fn decoding(s: Seq<u8>, pos: int) -> Decoding<ElementScrolledData> {
        match u32::decoding(s, pos) {
            Ok((node_id, at1)) => match u32::decoding(s, at1) {
                Ok((scroll_x_offset, at2)) => match u32::decoding(s, at2) {
                    Ok((scroll_y_offset, end)) => Ok(
                        (ElementScrolledData { node_id, scroll_x_offset, scroll_y_offset }, end),
                    ),
                    Err(e) => Err(e),
                },
                Err(e) => Err(e),
            },
            Err(e) => Err(e),
        }
    }

    open spec fn wf(v: ElementScrolledData) -> bool {
        true
    }

    fn encode(&self, out: &mut Vec<u8>) {
        self.node_id.encode(out);
        self.scroll_x_offset.encode(out);
        self.scroll_y_offset.encode(out);
        assert(out@ =~= old(out)@ + Self::encoding(self.deep_view()));
    }

    fn decode(input: &[u8], pos: usize) -> (r: Decoded<ElementScrolledData>) {
        let (node_id, at1) = u32::decode(input, pos)?;
        let (scroll_x_offset, at2) = u32::decode(input, at1)?;
        let (scroll_y_offset, end) = u32::decode(input, at2)?;
        Ok((ElementScrolledData { node_id, scroll_x_offset, scroll_y_offset }, end))
    }

    proof fn lemma_roundtrip(v: ElementScrolledData, s: Seq<u8>, pos: int) {
        let e_node_id = u32::encoding(v.node_id);
        let e_scroll_x_offset = u32::encoding(v.scroll_x_offset);
        let e_scroll_y_offset = u32::encoding(v.scroll_y_offset);
        lemma_holds_at_concat(s, pos, e_node_id + e_scroll_x_offset, e_scroll_y_offset);
        lemma_holds_at_concat(s, pos, e_node_id, e_scroll_x_offset);
        let at1 = pos + e_node_id.len();
        let at2 = at1 + e_scroll_x_offset.len();
        u32::lemma_roundtrip(v.node_id, s, pos);
        u32::lemma_roundtrip(v.scroll_x_offset, s, at1);
        u32::lemma_roundtrip(v.scroll_y_offset, s, at2);
    }
}

impl Wire for ElementBlurredData {
    /// The fields in the order of their declaration.
    open spec fn encoding(v: ElementBlurredData) -> Seq<u8> {
        u32::encoding(v.node_id)
    }

    open spec fn decoding(s: Seq<u8>, pos: int) -> Decoding<ElementBlurredData> {
        match u32::decoding(s, pos) {
            Ok((node_id, end)) => Ok((ElementBlurredData { node_id }, end)),
            Err(e) => Err(e),
        }
    }

    open spec fn wf(v: ElementBlurredData) -> bool {
        true
    }

    fn encode(&self, out: &mut Vec<u8>) {
        self.node_id.encode(out);
    }

    fn decode(input: &[u8], pos: usize) -> (r: Decoded<ElementBlurredData>) {
        let (node_id, end) = u32::decode(input, pos)?;
        Ok((ElementBlurredData { node_id }, end))
    }

    proof fn lemma_roundtrip(v: ElementBlurredData, s: Seq<u8>, pos: int) {
        u32::lemma_roundtrip(v.node_id, s, pos);
    }
}

impl Wire for WindowFocusedData {
    /// No bytes at all.
    open spec fn encoding(v: WindowFocusedData) -> Seq<u8> {
        Seq::empty()
    }

    open spec fn decoding(s: Seq<u8>, pos: int) -> Decoding<WindowFocusedData> {
        Ok((WindowFocusedData {}, pos))
    }

    open spec fn wf(v: WindowFocusedData) -> bool {
        true
    }

    fn encode(&self, out: &mut Vec<u8>) {
        assert(out@ =~= old(out)@ + Self::encoding(self.deep_view()));
    }

    fn decode(input: &[u8], pos: usize) -> (r: Decoded<WindowFocusedData>) {
        Ok((WindowFocusedData {}, pos))
    }

    proof fn lemma_roundtrip(v: WindowFocusedData, s: Seq<u8>, pos: int) {
    }
}

impl Wire for WindowBlurredData {
    /// No bytes at all.
    open spec fn encoding(v: WindowBlurredData) -> Seq<u8> {
        Seq::empty()
    }

    open spec fn decoding(s: Seq<u8>, pos: int) -> Decoding<WindowBlurredData> {
        Ok((WindowBlurredData {}, pos))
    }

    open spec fn wf(v: WindowBlurredData) -> bool {
        true
    }

    fn encode(&self, out: &mut Vec<u8>) {
        assert(out@ =~= old(out)@ + Self::encoding(self.deep_view()));
    }

    fn decode(input: &[u8], pos: usize) -> (r: Decoded<WindowBlurredData>) {
        Ok((WindowBlurredData {}, pos))
    }

    proof fn lemma_roundtrip(v: WindowBlurredData, s: Seq<u8>, pos: int) {
    }
}

impl Wire for StyleSheetRuleInsertedData {
    /// The fields in the order of their declaration.
    open spec fn encoding(v: StyleSheetRuleInsertedDataView) -> Seq<u8> {
        u32::encoding(v.style_sheet_id)
            + u32::encoding(v.rule_index)
            + String::encoding(v.content)
    }

    open spec fn decoding(s: Seq<u8>, pos: int) -> Decoding<StyleSheetRuleInsertedDataView> {
        match u32::decoding(s, pos) {
            Ok((style_sheet_id, at1)) => match u32::decoding(s, at1) {
                Ok((rule_index, at2)) => match String::decoding(s, at2) {
                    Ok((content, end)) => Ok(
                        (
                            StyleSheetRuleInsertedDataView {
                                style_sheet_id,
                                rule_index,
                                content,
                            },
                            end,
                        ),
                    ),
                    Err(e) => Err(e),
                },
                Err(e) => Err(e),
            },
            Err(e) => Err(e),
        }
    }

    open spec fn wf(v: StyleSheetRuleInsertedDataView) -> bool {
        String::wf(v.content)
    }

    fn encode(&self, out: &mut Vec<u8>) {
        self.style_sheet_id.encode(out);
        self.rule_index.encode(out);
        self.content.encode(out);
        assert(out@ =~= old(out)@ + Self::encoding(self.deep_view()));
    }

    fn decode(input: &[u8], pos: usize) -> (r: Decoded<StyleSheetRuleInsertedData>) {
        let (style_sheet_id, at1) = u32::decode(input, pos)?;
        let (rule_index, at2) = u32::decode(input, at1)?;
        let (content, end) = String::decode(input, at2)?;
        Ok((StyleSheetRuleInsertedData { style_sheet_id, rule_index, content }, end))
    }

    proof fn lemma_roundtrip(v: StyleSheetRuleInsertedDataView, s: Seq<u8>, pos: int) {
        let e_style_sheet_id = u32::encoding(v.style_sheet_id);
        let e_rule_index = u32::encoding(v.rule_index);
        let e_content = String::encoding(v.content);
        lemma_holds_at_concat(s, pos, e_style_sheet_id + e_rule_index, e_content);
        lemma_holds_at_concat(s, pos, e_style_sheet_id, e_rule_index);
        let at1 = pos + e_style_sheet_id.len();
        let at2 = at1 + e_rule_index.len();
        u32::lemma_roundtrip(v.style_sheet_id, s, pos);
        u32::lemma_roundtrip(v.rule_index, s, at1);
        String::lemma_roundtrip(v.content, s, at2);
    }
}

impl Wire for StyleSheetRuleDeletedData {
    /// The fields in the order of their declaration.
    open spec fn encoding(v: StyleSheetRuleDeletedData) -> Seq<u8> {
        u32::encoding(v.style_sheet_id)
            + u32::encoding(v.rule_index)
    }

    open spec fn decoding(s: Seq<u8>, pos: int) -> Decoding<StyleSheetRuleDeletedData> {
        match u32::decoding(s, pos) {
            Ok((style_sheet_id, at1)) => match u32::decoding(s, at1) {
                Ok((rule_index, end)) => Ok(
                    (StyleSheetRuleDeletedData { style_sheet_id, rule_index }, end),
                ),
                Err(e) => Err(e),
            },
            Err(e) => Err(e),
        }
    }

    open spec fn wf(v: StyleSheetRuleDeletedData) -> bool {
        true
    }

    fn encode(&self, out: &mut Vec<u8>) {
        self.style_sheet_id.encode(out);
        self.rule_index.encode(out);
        assert(out@ =~= old(out)@ + Self::encoding(self.deep_view()));
    }

    fn decode(input: &[u8], pos: usize) -> (r: Decoded<StyleSheetRuleDeletedData>) {
        let (style_sheet_id, at1) = u32::decode(input, pos)?;
        let (rule_index, end) = u32::decode(input, at1)?;
        Ok((StyleSheetRuleDeletedData { style_sheet_id, rule_index }, end))
    }

    proof fn lemma_roundtrip(v: StyleSheetRuleDeletedData, s: Seq<u8>, pos: int) {
        let e_style_sheet_id = u32::encoding(v.style_sheet_id);
        let e_rule_index = u32::encoding(v.rule_index);
        lemma_holds_at_concat(s, pos, e_style_sheet_id, e_rule_index);
        let at1 = pos + e_style_sheet_id.len();
        u32::lemma_roundtrip(v.style_sheet_id, s, pos);
        u32::lemma_roundtrip(v.rule_index, s, at1);
    }
}

impl Wire for StyleSheetReplacedData {
    /// The fields in the order of their declaration.
    open spec fn encoding(v: StyleSheetReplacedDataView) -> Seq<u8> {
        u32::encoding(v.style_sheet_id)
            + String::encoding(v.content)
    }

    open spec fn decoding(s: Seq<u8>, pos: int) -> Decoding<StyleSheetReplacedDataView> {
        match u32::decoding(s, pos) {
            Ok((style_sheet_id, at1)) => match String::decoding(s, at1) {
                Ok((content, end)) => Ok(
                    (StyleSheetReplacedDataView { style_sheet_id, content }, end),
                ),
                Err(e) => Err(e),
            },
            Err(e) => Err(e),
        }
    }

    open spec fn wf(v: StyleSheetReplacedDataView) -> bool {
        String::wf(v.content)
    }

    fn encode(&self, out: &mut Vec<u8>) {
        self.style_sheet_id.encode(out);
        self.content.encode(out);
        assert(out@ =~= old(out)@ + Self::encoding(self.deep_view()));
    }

    fn decode(input: &[u8], pos: usize) -> (r: Decoded<StyleSheetReplacedData>) {
        let (style_sheet_id, at1) = u32::decode(input, pos)?;
        let (content, end) = String::decode(input, at1)?;
        Ok((StyleSheetReplacedData { style_sheet_id, content }, end))
    }

    proof fn lemma_roundtrip(v: StyleSheetReplacedDataView, s: Seq<u8>, pos: int) {
        let e_style_sheet_id = u32::encoding(v.style_sheet_id);
        let e_content = String::encoding(v.content);
        lemma_holds_at_concat(s, pos, e_style_sheet_id, e_content);
        let at1 = pos + e_style_sheet_id.len();
        u32::lemma_roundtrip(v.style_sheet_id, s, pos);
        String::lemma_roundtrip(v.content, s, at1);
    }
}

impl Wire for CanvasChangedData {
    /// The fields in the order of their declaration.
    open spec fn encoding(v: CanvasChangedDataView) -> Seq<u8> {
        u32::encoding(v.node_id)
            + String::encoding(v.mime_type)
            + bytes_encoding(v.data)
    }

    open spec fn decoding(s: Seq<u8>, pos: int) -> Decoding<CanvasChangedDataView> {
        match u32::decoding(s, pos) {
            Ok((node_id, at1)) => match String::decoding(s, at1) {
                Ok((mime_type, at2)) => match bytes_decoding(s, at2) {
                    Ok((data, end)) => Ok(
                        (CanvasChangedDataView { node_id, mime_type, data }, end),
                    ),
                    Err(e) => Err(e),
                },
                Err(e) => Err(e),
            },
            Err(e) => Err(e),
        }
    }

    open spec fn wf(v: CanvasChangedDataView) -> bool {
        &&& String::wf(v.mime_type)
        &&& bytes_wf(v.data)
    }

    fn encode(&self, out: &mut Vec<u8>) {
        self.node_id.encode(out);
        self.mime_type.encode(out);
        encode_bytes(self.data.as_slice(), out);
        assert(out@ =~= old(out)@ + Self::encoding(self.deep_view()));
    }

    fn decode(input: &[u8], pos: usize) -> (r: Decoded<CanvasChangedData>) {
        let (node_id, at1) = u32::decode(input, pos)?;
        let (mime_type, at2) = String::decode(input, at1)?;
        let (data, end) = decode_bytes(input, at2)?;
        Ok((CanvasChangedData { node_id, mime_type, data }, end))
    }

    proof fn lemma_roundtrip(v: CanvasChangedDataView, s: Seq<u8>, pos: int) {
        let e_node_id = u32::encoding(v.node_id);
        let e_mime_type = String::encoding(v.mime_type);
        let e_data = bytes_encoding(v.data);
        lemma_holds_at_concat(s, pos, e_node_id + e_mime_type, e_data);
        lemma_holds_at_concat(s, pos, e_node_id, e_mime_type);
        let at1 = pos + e_node_id.len();
        let at2 = at1 + e_mime_type.len();
        u32::lemma_roundtrip(v.node_id, s, pos);
        String::lemma_roundtrip(v.mime_type, s, at1);
        lemma_bytes_roundtrip(v.data, s, at2);
    }
}

impl Wire for DomNodePropertyTextChangedData {
    /// The fields in the order of their declaration.
    open spec fn encoding(v: DomNodePropertyTextChangedDataView) -> Seq<u8> {
        u32::encoding(v.node_id)
            + String::encoding(v.property_name)
            + Vec::<TextOperationData>::encoding(v.operations)
    }

    open spec fn decoding(s: Seq<u8>, pos: int) -> Decoding<DomNodePropertyTextChangedDataView> {
        match u32::decoding(s, pos) {
            Ok((node_id, at1)) => match String::decoding(s, at1) {
                Ok((property_name, at2)) => match Vec::<TextOperationData>::decoding(s, at2) {
                    Ok((operations, end)) => Ok(
                        (
                            DomNodePropertyTextChangedDataView {
                                node_id,
                                property_name,
                                operations,
                            },
                            end,
                        ),
                    ),
                    Err(e) => Err(e),
                },
                Err(e) => Err(e),
            },
            Err(e) => Err(e),
        }
    }

    open spec fn wf(v: DomNodePropertyTextChangedDataView) -> bool {
        &&& String::wf(v.property_name)
        &&& Vec::<TextOperationData>::wf(v.operations)
    }

    fn encode(&self, out: &mut Vec<u8>) {
        self.node_id.encode(out);
        self.property_name.encode(out);
        self.operations.encode(out);
        assert(out@ =~= old(out)@ + Self::encoding(self.deep_view()));
    }

    fn decode(input: &[u8], pos: usize) -> (r: Decoded<DomNodePropertyTextChangedData>) {
        let (node_id, at1) = u32::decode(input, pos)?;
        let (property_name, at2) = String::decode(input, at1)?;
        let (operations, end) = Vec::<TextOperationData>::decode(input, at2)?;
        Ok((DomNodePropertyTextChangedData { node_id, property_name, operations }, end))
    }

    proof fn lemma_roundtrip(v: DomNodePropertyTextChangedDataView, s: Seq<u8>, pos: int) {
        let e_node_id = u32::encoding(v.node_id);
        let e_property_name = String::encoding(v.property_name);
        let e_operations = Vec::<TextOperationData>::encoding(v.operations);
        lemma_holds_at_concat(s, pos, e_node_id + e_property_name, e_operations);
        lemma_holds_at_concat(s, pos, e_node_id, e_property_name);
        let at1 = pos + e_node_id.len();
        let at2 = at1 + e_property_name.len();
        u32::lemma_roundtrip(v.node_id, s, pos);
        String::lemma_roundtrip(v.property_name, s, at1);
        Vec::<TextOperationData>::lemma_roundtrip(v.operations, s, at2);
    }
}

impl Wire for RecordingMetadataData {
    /// The fields in the order of their declaration.
    open spec fn encoding(v: RecordingMetadataDataView) -> Seq<u8> {
        String::encoding(v.initial_url)
    }

    open spec fn decoding(s: Seq<u8>, pos: int) -> Decoding<RecordingMetadataDataView> {
        match String::decoding(s, pos) {
            Ok((initial_url, end)) => Ok((RecordingMetadataDataView { initial_url }, end)),
            Err(e) => Err(e),
        }
    }

    open spec fn wf(v: RecordingMetadataDataView) -> bool {
        String::wf(v.initial_url)
    }

    fn encode(&self, out: &mut Vec<u8>) {
        self.initial_url.encode(out);
    }

    fn decode(input: &[u8], pos: usize) -> (r: Decoded<RecordingMetadataData>) {
        let (initial_url, end) = String::decode(input, pos)?;
        Ok((RecordingMetadataData { initial_url }, end))
    }

    proof fn lemma_roundtrip(v: RecordingMetadataDataView, s: Seq<u8>, pos: int) {
        String::lemma_roundtrip(v.initial_url, s, pos);
    }
}

impl Wire for ManifestEntryData {
    /// The fields in the order of their declaration.
    open spec fn encoding(v: ManifestEntryDataView) -> Seq<u8> {
        String::encoding(v.url)
            + String::encoding(v.sha256_hash)
    }

    open spec fn decoding(s: Seq<u8>, pos: int) -> Decoding<ManifestEntryDataView> {
        match String::decoding(s, pos) {
            Ok((url, at1)) => match String::decoding(s, at1) {
                Ok((sha256_hash, end)) => Ok((ManifestEntryDataView { url, sha256_hash }, end)),
                Err(e) => Err(e),
            },
            Err(e) => Err(e),
        }
    }

    open spec fn wf(v: ManifestEntryDataView) -> bool {
        &&& String::wf(v.url)
        &&& String::wf(v.sha256_hash)
    }

    fn encode(&self, out: &mut Vec<u8>) {
        self.url.encode(out);
        self.sha256_hash.encode(out);
        assert(out@ =~= old(out)@ + Self::encoding(self.deep_view()));
    }

    fn decode(input: &[u8], pos: usize) -> (r: Decoded<ManifestEntryData>) {
        let (url, at1) = String::decode(input, pos)?;
        let (sha256_hash, end) = String::decode(input, at1)?;
        Ok((ManifestEntryData { url, sha256_hash }, end))
    }

    proof fn lemma_roundtrip(v: ManifestEntryDataView, s: Seq<u8>, pos: int) {
        let e_url = String::encoding(v.url);
        let e_sha256_hash = String::encoding(v.sha256_hash);
        lemma_holds_at_concat(s, pos, e_url, e_sha256_hash);
        let at1 = pos + e_url.len();
        String::lemma_roundtrip(v.url, s, pos);
        String::lemma_roundtrip(v.sha256_hash, s, at1);
    }
}

impl Wire for CacheManifestData {
    /// The fields in the order of their declaration.
    open spec fn encoding(v: CacheManifestDataView) -> Seq<u8> {
        String::encoding(v.site_origin)
            + Vec::<ManifestEntryData>::encoding(v.assets)
    }

    open spec fn decoding(s: Seq<u8>, pos: int) -> Decoding<CacheManifestDataView> {
        match String::decoding(s, pos) {
            Ok((site_origin, at1)) => match Vec::<ManifestEntryData>::decoding(s, at1) {
                Ok((assets, end)) => Ok((CacheManifestDataView { site_origin, assets }, end)),
                Err(e) => Err(e),
            },
            Err(e) => Err(e),
        }
    }

    open spec fn wf(v: CacheManifestDataView) -> bool {
        &&& String::wf(v.site_origin)
        &&& Vec::<ManifestEntryData>::wf(v.assets)
    }

    fn encode(&self, out: &mut Vec<u8>) {
        self.site_origin.encode(out);
        self.assets.encode(out);
        assert(out@ =~= old(out)@ + Self::encoding(self.deep_view()));
    }

    fn decode(input: &[u8], pos: usize) -> (r: Decoded<CacheManifestData>) {
        let (site_origin, at1) = String::decode(input, pos)?;
        let (assets, end) = Vec::<ManifestEntryData>::decode(input, at1)?;
        Ok((CacheManifestData { site_origin, assets }, end))
    }

    proof fn lemma_roundtrip(v: CacheManifestDataView, s: Seq<u8>, pos: int) {
        let e_site_origin = String::encoding(v.site_origin);
        let e_assets = Vec::<ManifestEntryData>::encoding(v.assets);
        lemma_holds_at_concat(s, pos, e_site_origin, e_assets);
        let at1 = pos + e_site_origin.len();
        String::lemma_roundtrip(v.site_origin, s, pos);
        Vec::<ManifestEntryData>::lemma_roundtrip(v.assets, s, at1);
    }
}

impl Wire for PlaybackConfigData {
    /// The fields in the order of their declaration.
    open spec fn encoding(v: PlaybackConfigDataView) -> Seq<u8> {
        String::encoding(v.storage_type)
            + String::encoding(v.config_json)
            + bool::encoding(v.is_live)
            + Option::<u64>::encoding(v.latest_timestamp)
    }

    open spec fn decoding(s: Seq<u8>, pos: int) -> Decoding<PlaybackConfigDataView> {
        match String::decoding(s, pos) {
            Ok((storage_type, at1)) => match String::decoding(s, at1) {
                Ok((config_json, at2)) => match bool::decoding(s, at2) {
                    Ok((is_live, at3)) => match Option::<u64>::decoding(s, at3) {
                        Ok((latest_timestamp, end)) => Ok(
                            (
                                PlaybackConfigDataView {
                                    storage_type,
                                    config_json,
                                    is_live,
                                    latest_timestamp,
                                },
                                end,
                            ),
                        ),
                        Err(e) => Err(e),
                    },
                    Err(e) => Err(e),
                },
                Err(e) => Err(e),
            },
            Err(e) => Err(e),
        }
    }

    open spec fn wf(v: PlaybackConfigDataView) -> bool {
        &&& String::wf(v.storage_type)
        &&& String::wf(v.config_json)
        &&& Option::<u64>::wf(v.latest_timestamp)
    }

    fn encode(&self, out: &mut Vec<u8>) {
        self.storage_type.encode(out);
        self.config_json.encode(out);
        self.is_live.encode(out);
        self.latest_timestamp.encode(out);
        assert(out@ =~= old(out)@ + Self::encoding(self.deep_view()));
    }

    fn decode(input: &[u8], pos: usize) -> (r: Decoded<PlaybackConfigData>) {
        let (storage_type, at1) = String::decode(input, pos)?;
        let (config_json, at2) = String::decode(input, at1)?;
        let (is_live, at3) = bool::decode(input, at2)?;
        let (latest_timestamp, end) = Option::<u64>::decode(input, at3)?;
        Ok((PlaybackConfigData { storage_type, config_json, is_live, latest_timestamp }, end))
    }

    proof fn lemma_roundtrip(v: PlaybackConfigDataView, s: Seq<u8>, pos: int) {
        let e_storage_type = String::encoding(v.storage_type);
        let e_config_json = String::encoding(v.config_json);
        let e_is_live = bool::encoding(v.is_live);
        let e_latest_timestamp = Option::<u64>::encoding(v.latest_timestamp);
        lemma_holds_at_concat(
            s,
            pos,
            e_storage_type + e_config_json + e_is_live,
            e_latest_timestamp,
        );
        lemma_holds_at_concat(s, pos, e_storage_type + e_config_json, e_is_live);
        lemma_holds_at_concat(s, pos, e_storage_type, e_config_json);
        let at1 = pos + e_storage_type.len();
        let at2 = at1 + e_config_json.len();
        let at3 = at2 + e_is_live.len();
        String::lemma_roundtrip(v.storage_type, s, pos);
        String::lemma_roundtrip(v.config_json, s, at1);
        bool::lemma_roundtrip(v.is_live, s, at2);
        Option::<u64>::lemma_roundtrip(v.latest_timestamp, s, at3);
    }
}

impl Wire for AssetReferenceData {
    /// The fields in the order of their declaration.
    open spec fn encoding(v: AssetReferenceDataView) -> Seq<u8> {
        u32::encoding(v.asset_id)
            + String::encoding(v.url)
            + String::encoding(v.hash)
            + Option::<String>::encoding(v.mime)
    }

    open spec fn decoding(s: Seq<u8>, pos: int) -> Decoding<AssetReferenceDataView> {
        match u32::decoding(s, pos) {
            Ok((asset_id, at1)) => match String::decoding(s, at1) {
                Ok((url, at2)) => match String::decoding(s, at2) {
                    Ok((hash, at3)) => match Option::<String>::decoding(s, at3) {
                        Ok((mime, end)) => Ok(
                            (AssetReferenceDataView { asset_id, url, hash, mime }, end),
                        ),
                        Err(e) => Err(e),
                    },
                    Err(e) => Err(e),
                },
                Err(e) => Err(e),
            },
            Err(e) => Err(e),
        }
    }

    open spec fn wf(v: AssetReferenceDataView) -> bool {
        &&& String::wf(v.url)
        &&& String::wf(v.hash)
        &&& Option::<String>::wf(v.mime)
    }

    fn encode(&self, out: &mut Vec<u8>) {
        self.asset_id.encode(out);
        self.url.encode(out);
        self.hash.encode(out);
        self.mime.encode(out);
        assert(out@ =~= old(out)@ + Self::encoding(self.deep_view()));
    }

    fn decode(input: &[u8], pos: usize) -> (r: Decoded<AssetReferenceData>) {
        let (asset_id, at1) = u32::decode(input, pos)?;
        let (url, at2) = String::decode(input, at1)?;
        let (hash, at3) = String::decode(input, at2)?;
        let (mime, end) = Option::<String>::decode(input, at3)?;
        Ok((AssetReferenceData { asset_id, url, hash, mime }, end))
    }

    proof fn lemma_roundtrip(v: AssetReferenceDataView, s: Seq<u8>, pos: int) {
        let e_asset_id = u32::encoding(v.asset_id);
        let e_url = String::encoding(v.url);
        let e_hash = String::encoding(v.hash);
        let e_mime = Option::<String>::encoding(v.mime);
        lemma_holds_at_concat(s, pos, e_asset_id + e_url + e_hash, e_mime);
        lemma_holds_at_concat(s, pos, e_asset_id + e_url, e_hash);
        lemma_holds_at_concat(s, pos, e_asset_id, e_url);
        let at1 = pos + e_asset_id.len();
        let at2 = at1 + e_url.len();
        let at3 = at2 + e_hash.len();
        u32::lemma_roundtrip(v.asset_id, s, pos);
        String::lemma_roundtrip(v.url, s, at1);
        String::lemma_roundtrip(v.hash, s, at2);
        Option::<String>::lemma_roundtrip(v.mime, s, at3);
    }
}

impl FrameView {
    /// The bytes that stand for what the variant holds.
    pub open spec fn payload_encoding(self) -> Seq<u8> {
        match self {
            FrameView::Timestamp(d) => TimestampData::encoding(d),
            FrameView::Keyframe(d) => KeyframeData::encoding(d),
            FrameView::ViewportResized(d) => ViewportResizedData::encoding(d),
            FrameView::ScrollOffsetChanged(d) => ScrollOffsetChangedData::encoding(d),
            FrameView::MouseMoved(d) => MouseMovedData::encoding(d),
            FrameView::MouseClicked(d) => MouseClickedData::encoding(d),
            FrameView::KeyPressed(d) => KeyPressedData::encoding(d),
            FrameView::ElementFocused(d) => ElementFocusedData::encoding(d),
            FrameView::TextSelectionChanged(d) => TextSelectionChangedData::encoding(d),
            FrameView::DomNodeAdded(d) => DomNodeAddedData::encoding(d),
            FrameView::DomNodeRemoved(d) => DomNodeRemovedData::encoding(d),
            FrameView::DomAttributeChanged(d) => DomAttributeChangedData::encoding(d),
            FrameView::DomAttributeRemoved(d) => DomAttributeRemovedData::encoding(d),
            FrameView::DomTextChanged(d) => DomTextChangedData::encoding(d),
            FrameView::DomNodeResized(d) => DomNodeResizedData::encoding(d),
            FrameView::DomNodePropertyChanged(d) => DomNodePropertyChangedData::encoding(d),
            FrameView::Asset(d) => AssetData::encoding(d),
            FrameView::AdoptedStyleSheetsChanged(d) => AdoptedStyleSheetsChangedData::encoding(d),
            FrameView::NewAdoptedStyleSheet(d) => NewAdoptedStyleSheetData::encoding(d),
            FrameView::ElementScrolled(d) => ElementScrolledData::encoding(d),
            FrameView::ElementBlurred(d) => ElementBlurredData::encoding(d),
            FrameView::WindowFocused(d) => WindowFocusedData::encoding(d),
            FrameView::WindowBlurred(d) => WindowBlurredData::encoding(d),
            FrameView::StyleSheetRuleInserted(d) => StyleSheetRuleInsertedData::encoding(d),
            FrameView::StyleSheetRuleDeleted(d) => StyleSheetRuleDeletedData::encoding(d),
            FrameView::StyleSheetReplaced(d) => StyleSheetReplacedData::encoding(d),
            FrameView::CanvasChanged(d) => CanvasChangedData::encoding(d),
            FrameView::DomNodePropertyTextChanged(d) => DomNodePropertyTextChangedData::encoding(d),
            FrameView::RecordingMetadata(d) => RecordingMetadataData::encoding(d),
            FrameView::CacheManifest(d) => CacheManifestData::encoding(d),
            FrameView::PlaybackConfig(d) => PlaybackConfigData::encoding(d),
            FrameView::AssetReference(d) => AssetReferenceData::encoding(d),
            FrameView::Heartbeat => Seq::empty(),
        }
    }
}

/// Reads what follows the tag of a frame, for the tags from 0 to 7.
fn decode_tagged_0_7(tag: u32, input: &[u8], pos: usize, start: usize) -> (r: Decoded<Frame>)
    requires
        0 <= tag <= 7,
        u32::decoding(input@, pos as int) == Ok::<(u32, int), DecodeError>((tag, start as int)),
    ensures
        match r {
            Ok((value, end)) => Frame::decoding(input@, pos as int) == Ok::<
                (FrameView, int),
                DecodeError,
            >((value.deep_view(), end as int)),
            Err(e) => Frame::decoding(input@, pos as int) == Err::<
                (FrameView, int),
                DecodeError,
            >(e),
        },
{
    if tag == 0 {
        match TimestampData::decode(input, start) {
            Ok((d, end)) => Ok((Frame::Timestamp(d), end)),
            Err(e) => Err(e),
        }
    } else if tag == 1 {
        match KeyframeData::decode(input, start) {
            Ok((d, end)) => Ok((Frame::Keyframe(d), end)),
            Err(e) => Err(e),
        }
    } else if tag == 2 {
        match ViewportResizedData::decode(input, start) {
            Ok((d, end)) => Ok((Frame::ViewportResized(d), end)),
            Err(e) => Err(e),
        }
    } else if tag == 3 {
        match ScrollOffsetChangedData::decode(input, start) {
            Ok((d, end)) => Ok((Frame::ScrollOffsetChanged(d), end)),
            Err(e) => Err(e),
        }
    } else if tag == 4 {
        match MouseMovedData::decode(input, start) {
            Ok((d, end)) => Ok((Frame::MouseMoved(d), end)),
            Err(e) => Err(e),
        }
    } else if tag == 5 {
        match MouseClickedData::decode(input, start) {
            Ok((d, end)) => Ok((Frame::MouseClicked(d), end)),
            Err(e) => Err(e),
        }
    } else if tag == 6 {
        match KeyPressedData::decode(input, start) {
            Ok((d, end)) => Ok((Frame::KeyPressed(d), end)),
            Err(e) => Err(e),
        }
    } else {
        match ElementFocusedData::decode(input, start) {
            Ok((d, end)) => Ok((Frame::ElementFocused(d), end)),
            Err(e) => Err(e),
        }
    }
}

/// Reads what follows the tag of a frame, for the tags from 8 to 15.
fn decode_tagged_8_15(tag: u32, input: &[u8], pos: usize, start: usize) -> (r: Decoded<Frame>)
    requires
        8 <= tag <= 15,
        u32::decoding(input@, pos as int) == Ok::<(u32, int), DecodeError>((tag, start as int)),
    ensures
        match r {
            Ok((value, end)) => Frame::decoding(input@, pos as int) == Ok::<
                (FrameView, int),
                DecodeError,
            >((value.deep_view(), end as int)),
            Err(e) => Frame::decoding(input@, pos as int) == Err::<
                (FrameView, int),
                DecodeError,
            >(e),
        },
{
    if tag == 8 {
        match TextSelectionChangedData::decode(input, start) {
            Ok((d, end)) => Ok((Frame::TextSelectionChanged(d), end)),
            Err(e) => Err(e),
        }
    } else if tag == 9 {
        match DomNodeAddedData::decode(input, start) {
            Ok((d, end)) => Ok((Frame::DomNodeAdded(d), end)),
            Err(e) => Err(e),
        }
    } else if tag == 10 {
        match DomNodeRemovedData::decode(input, start) {
            Ok((d, end)) => Ok((Frame::DomNodeRemoved(d), end)),
            Err(e) => Err(e),
        }
    } else if tag == 11 {
        match DomAttributeChangedData::decode(input, start) {
            Ok((d, end)) => Ok((Frame::DomAttributeChanged(d), end)),
            Err(e) => Err(e),
        }
    } else if tag == 12 {
        match DomAttributeRemovedData::decode(input, start) {
            Ok((d, end)) => Ok((Frame::DomAttributeRemoved(d), end)),
            Err(e) => Err(e),
        }
    } else if tag == 13 {
        match DomTextChangedData::decode(input, start) {
            Ok((d, end)) => Ok((Frame::DomTextChanged(d), end)),
            Err(e) => Err(e),
        }
    } else if tag == 14 {
        match DomNodeResizedData::decode(input, start) {
            Ok((d, end)) => Ok((Frame::DomNodeResized(d), end)),
            Err(e) => Err(e),
        }
    } else {
        match DomNodePropertyChangedData::decode(input, start) {
            Ok((d, end)) => Ok((Frame::DomNodePropertyChanged(d), end)),
            Err(e) => Err(e),
        }
    }
}

/// Reads what follows the tag of a frame, for the tags from 16 to 22.
fn decode_tagged_16_22(tag: u32, input: &[u8], pos: usize, start: usize) -> (r: Decoded<Frame>)
    requires
        16 <= tag <= 22,
        u32::decoding(input@, pos as int) == Ok::<(u32, int), DecodeError>((tag, start as int)),
    ensures
        match r {
            Ok((value, end)) => Frame::decoding(input@, pos as int) == Ok::<
                (FrameView, int),
                DecodeError,
            >((value.deep_view(), end as int)),
            Err(e) => Frame::decoding(input@, pos as int) == Err::<
                (FrameView, int),
                DecodeError,
            >(e),
        },
{
    if tag == 16 {
        match AssetData::decode(input, start) {
            Ok((d, end)) => Ok((Frame::Asset(d), end)),
            Err(e) => Err(e),
        }
    } else if tag == 17 {
        match AdoptedStyleSheetsChangedData::decode(input, start) {
            Ok((d, end)) => Ok((Frame::AdoptedStyleSheetsChanged(d), end)),
            Err(e) => Err(e),
        }
    } else if tag == 18 {
        match NewAdoptedStyleSheetData::decode(input, start) {
            Ok((d, end)) => Ok((Frame::NewAdoptedStyleSheet(d), end)),
            Err(e) => Err(e),
        }
    } else if tag == 19 {
        match ElementScrolledData::decode(input, start) {
            Ok((d, end)) => Ok((Frame::ElementScrolled(d), end)),
            Err(e) => Err(e),
        }
    } else if tag == 20 {
        match ElementBlurredData::decode(input, start) {
            Ok((d, end)) => Ok((Frame::ElementBlurred(d), end)),
            Err(e) => Err(e),
        }
    } else if tag == 21 {
        match WindowFocusedData::decode(input, start) {
            Ok((d, end)) => Ok((Frame::WindowFocused(d), end)),
            Err(e) => Err(e),
        }
    } else {
        match WindowBlurredData::decode(input, start) {
            Ok((d, end)) => Ok((Frame::WindowBlurred(d), end)),
            Err(e) => Err(e),
        }
    }
}

/// Reads what follows the tag of a frame, for the tags from 23 to 27.
fn decode_tagged_23_27(tag: u32, input: &[u8], pos: usize, start: usize) -> (r: Decoded<Frame>)
    requires
        23 <= tag <= 27,
        u32::decoding(input@, pos as int) == Ok::<(u32, int), DecodeError>((tag, start as int)),
    ensures
        match r {
            Ok((value, end)) => Frame::decoding(input@, pos as int) == Ok::<
                (FrameView, int),
                DecodeError,
            >((value.deep_view(), end as int)),
            Err(e) => Frame::decoding(input@, pos as int) == Err::<
                (FrameView, int),
                DecodeError,
            >(e),
        },
{
    if tag == 23 {
        match StyleSheetRuleInsertedData::decode(input, start) {
            Ok((d, end)) => Ok((Frame::StyleSheetRuleInserted(d), end)),
            Err(e) => Err(e),
        }
    } else if tag == 24 {
        match StyleSheetRuleDeletedData::decode(input, start) {
            Ok((d, end)) => Ok((Frame::StyleSheetRuleDeleted(d), end)),
            Err(e) => Err(e),
        }
    } else if tag == 25 {
        match StyleSheetReplacedData::decode(input, start) {
            Ok((d, end)) => Ok((Frame::StyleSheetReplaced(d), end)),
            Err(e) => Err(e),
        }
    } else if tag == 26 {
        match CanvasChangedData::decode(input, start) {
            Ok((d, end)) => Ok((Frame::CanvasChanged(d), end)),
            Err(e) => Err(e),
        }
    } else {
        match DomNodePropertyTextChangedData::decode(input, start) {
            Ok((d, end)) => Ok((Frame::DomNodePropertyTextChanged(d), end)),
            Err(e) => Err(e),
        }
    }
}

/// Reads what follows the tag of a frame, for the tags from 28 to 32.
fn decode_tagged_28_32(tag: u32, input: &[u8], pos: usize, start: usize) -> (r: Decoded<Frame>)
    requires
        28 <= tag <= 32,
        u32::decoding(input@, pos as int) == Ok::<(u32, int), DecodeError>((tag, start as int)),
    ensures
        match r {
            Ok((value, end)) => Frame::decoding(input@, pos as int) == Ok::<
                (FrameView, int),
                DecodeError,
            >((value.deep_view(), end as int)),
            Err(e) => Frame::decoding(input@, pos as int) == Err::<
                (FrameView, int),
                DecodeError,
            >(e),
        },
{
    if tag == 28 {
        match RecordingMetadataData::decode(input, start) {
            Ok((d, end)) => Ok((Frame::RecordingMetadata(d), end)),
            Err(e) => Err(e),
        }
    } else if tag == 29 {
        match CacheManifestData::decode(input, start) {
            Ok((d, end)) => Ok((Frame::CacheManifest(d), end)),
            Err(e) => Err(e),
        }
    } else if tag == 30 {
        match PlaybackConfigData::decode(input, start) {
            Ok((d, end)) => Ok((Frame::PlaybackConfig(d), end)),
            Err(e) => Err(e),
        }
    } else if tag == 31 {
        match AssetReferenceData::decode(input, start) {
            Ok((d, end)) => Ok((Frame::AssetReference(d), end)),
            Err(e) => Err(e),
        }
    } else {
        Ok((Frame::Heartbeat, start))
    }
}

impl Wire for Frame {
    /// The tag of the variant in four bytes, then what the variant holds.
    open spec fn encoding(v: FrameView) -> Seq<u8> {
        be32(v.tag()) + v.payload_encoding()
    }

    open spec fn decoding(s: Seq<u8>, pos: int) -> Decoding<FrameView> {
        match u32::decoding(s, pos) {
            Ok((tag, start)) => if tag == 0 {
                match TimestampData::decoding(s, start) {
                    Ok((d, end)) => Ok((FrameView::Timestamp(d), end)),
                    Err(e) => Err(e),
                }
            } else if tag == 1 {
                match KeyframeData::decoding(s, start) {
                    Ok((d, end)) => Ok((FrameView::Keyframe(d), end)),
                    Err(e) => Err(e),
                }
            } else if tag == 2 {
                match ViewportResizedData::decoding(s, start) {
                    Ok((d, end)) => Ok((FrameView::ViewportResized(d), end)),
                    Err(e) => Err(e),
                }
            } else if tag == 3 {
                match ScrollOffsetChangedData::decoding(s, start) {
                    Ok((d, end)) => Ok((FrameView::ScrollOffsetChanged(d), end)),
                    Err(e) => Err(e),
                }
            } else if tag == 4 {
                match MouseMovedData::decoding(s, start) {
                    Ok((d, end)) => Ok((FrameView::MouseMoved(d), end)),
                    Err(e) => Err(e),
                }
            } else if tag == 5 {
                match MouseClickedData::decoding(s, start) {
                    Ok((d, end)) => Ok((FrameView::MouseClicked(d), end)),
                    Err(e) => Err(e),
                }
            } else if tag == 6 {
                match KeyPressedData::decoding(s, start) {
                    Ok((d, end)) => Ok((FrameView::KeyPressed(d), end)),
                    Err(e) => Err(e),
                }
            } else if tag == 7 {
                match ElementFocusedData::decoding(s, start) {
                    Ok((d, end)) => Ok((FrameView::ElementFocused(d), end)),
                    Err(e) => Err(e),
                }
            } else if tag == 8 {
                match TextSelectionChangedData::decoding(s, start) {
                    Ok((d, end)) => Ok((FrameView::TextSelectionChanged(d), end)),
                    Err(e) => Err(e),
                }
            } else if tag == 9 {
                match DomNodeAddedData::decoding(s, start) {
                    Ok((d, end)) => Ok((FrameView::DomNodeAdded(d), end)),
                    Err(e) => Err(e),
                }
            } else if tag == 10 {
                match DomNodeRemovedData::decoding(s, start) {
                    Ok((d, end)) => Ok((FrameView::DomNodeRemoved(d), end)),
                    Err(e) => Err(e),
                }
            } else if tag == 11 {
                match DomAttributeChangedData::decoding(s, start) {
                    Ok((d, end)) => Ok((FrameView::DomAttributeChanged(d), end)),
                    Err(e) => Err(e),
                }
            } else if tag == 12 {
                match DomAttributeRemovedData::decoding(s, start) {
                    Ok((d, end)) => Ok((FrameView::DomAttributeRemoved(d), end)),
                    Err(e) => Err(e),
                }
            } else if tag == 13 {
                match DomTextChangedData::decoding(s, start) {
                    Ok((d, end)) => Ok((FrameView::DomTextChanged(d), end)),
                    Err(e) => Err(e),
                }
            } else if tag == 14 {
                match DomNodeResizedData::decoding(s, start) {
                    Ok((d, end)) => Ok((FrameView::DomNodeResized(d), end)),
                    Err(e) => Err(e),
                }
            } else if tag == 15 {
                match DomNodePropertyChangedData::decoding(s, start) {
                    Ok((d, end)) => Ok((FrameView::DomNodePropertyChanged(d), end)),
                    Err(e) => Err(e),
                }
            } else if tag == 16 {
                match AssetData::decoding(s, start) {
                    Ok((d, end)) => Ok((FrameView::Asset(d), end)),
                    Err(e) => Err(e),
                }
            } else if tag == 17 {
                match AdoptedStyleSheetsChangedData::decoding(s, start) {
                    Ok((d, end)) => Ok((FrameView::AdoptedStyleSheetsChanged(d), end)),
                    Err(e) => Err(e),
                }
            } else if tag == 18 {
                match NewAdoptedStyleSheetData::decoding(s, start) {
                    Ok((d, end)) => Ok((FrameView::NewAdoptedStyleSheet(d), end)),
                    Err(e) => Err(e),
                }
            } else if tag == 19 {
                match ElementScrolledData::decoding(s, start) {
                    Ok((d, end)) => Ok((FrameView::ElementScrolled(d), end)),
                    Err(e) => Err(e),
                }
            } else if tag == 20 {
                match ElementBlurredData::decoding(s, start) {
                    Ok((d, end)) => Ok((FrameView::ElementBlurred(d), end)),
                    Err(e) => Err(e),
                }
            } else if tag == 21 {
                match WindowFocusedData::decoding(s, start) {
                    Ok((d, end)) => Ok((FrameView::WindowFocused(d), end)),
                    Err(e) => Err(e),
                }
            } else if tag == 22 {
                match WindowBlurredData::decoding(s, start) {
                    Ok((d, end)) => Ok((FrameView::WindowBlurred(d), end)),
                    Err(e) => Err(e),
                }
            } else if tag == 23 {
                match StyleSheetRuleInsertedData::decoding(s, start) {
                    Ok((d, end)) => Ok((FrameView::StyleSheetRuleInserted(d), end)),
                    Err(e) => Err(e),
                }
            } else if tag == 24 {
                match StyleSheetRuleDeletedData::decoding(s, start) {
                    Ok((d, end)) => Ok((FrameView::StyleSheetRuleDeleted(d), end)),
                    Err(e) => Err(e),
                }
            } else if tag == 25 {
                match StyleSheetReplacedData::decoding(s, start) {
                    Ok((d, end)) => Ok((FrameView::StyleSheetReplaced(d), end)),
                    Err(e) => Err(e),
                }
            } else if tag == 26 {
                match CanvasChangedData::decoding(s, start) {
                    Ok((d, end)) => Ok((FrameView::CanvasChanged(d), end)),
                    Err(e) => Err(e),
                }
            } else if tag == 27 {
                match DomNodePropertyTextChangedData::decoding(s, start) {
                    Ok((d, end)) => Ok((FrameView::DomNodePropertyTextChanged(d), end)),
                    Err(e) => Err(e),
                }
            } else if tag == 28 {
                match RecordingMetadataData::decoding(s, start) {
                    Ok((d, end)) => Ok((FrameView::RecordingMetadata(d), end)),
                    Err(e) => Err(e),
                }
            } else if tag == 29 {
                match CacheManifestData::decoding(s, start) {
                    Ok((d, end)) => Ok((FrameView::CacheManifest(d), end)),
                    Err(e) => Err(e),
                }
            } else if tag == 30 {
                match PlaybackConfigData::decoding(s, start) {
                    Ok((d, end)) => Ok((FrameView::PlaybackConfig(d), end)),
                    Err(e) => Err(e),
                }
            } else if tag == 31 {
                match AssetReferenceData::decoding(s, start) {
                    Ok((d, end)) => Ok((FrameView::AssetReference(d), end)),
                    Err(e) => Err(e),
                }
            } else if tag == 32 {
                Ok((FrameView::Heartbeat, start))
            } else {
                Err(DecodeError::UnknownTag)
            },
            Err(e) => Err(e),
        }
    }

    open spec fn wf(v: FrameView) -> bool {
        match v {
            FrameView::Timestamp(_) => true,
            FrameView::Keyframe(d) => KeyframeData::wf(d),
            FrameView::ViewportResized(_) => true,
            FrameView::ScrollOffsetChanged(_) => true,
            FrameView::MouseMoved(_) => true,
            FrameView::MouseClicked(_) => true,
            FrameView::KeyPressed(d) => KeyPressedData::wf(d),
            FrameView::ElementFocused(_) => true,
            FrameView::TextSelectionChanged(_) => true,
            FrameView::DomNodeAdded(d) => DomNodeAddedData::wf(d),
            FrameView::DomNodeRemoved(_) => true,
            FrameView::DomAttributeChanged(d) => DomAttributeChangedData::wf(d),
            FrameView::DomAttributeRemoved(d) => DomAttributeRemovedData::wf(d),
            FrameView::DomTextChanged(d) => DomTextChangedData::wf(d),
            FrameView::DomNodeResized(_) => true,
            FrameView::DomNodePropertyChanged(d) => DomNodePropertyChangedData::wf(d),
            FrameView::Asset(d) => AssetData::wf(d),
            FrameView::AdoptedStyleSheetsChanged(d) => AdoptedStyleSheetsChangedData::wf(d),
            FrameView::NewAdoptedStyleSheet(d) => NewAdoptedStyleSheetData::wf(d),
            FrameView::ElementScrolled(_) => true,
            FrameView::ElementBlurred(_) => true,
            FrameView::WindowFocused(_) => true,
            FrameView::WindowBlurred(_) => true,
            FrameView::StyleSheetRuleInserted(d) => StyleSheetRuleInsertedData::wf(d),
            FrameView::StyleSheetRuleDeleted(_) => true,
            FrameView::StyleSheetReplaced(d) => StyleSheetReplacedData::wf(d),
            FrameView::CanvasChanged(d) => CanvasChangedData::wf(d),
            FrameView::DomNodePropertyTextChanged(d) => DomNodePropertyTextChangedData::wf(d),
            FrameView::RecordingMetadata(d) => RecordingMetadataData::wf(d),
            FrameView::CacheManifest(d) => CacheManifestData::wf(d),
            FrameView::PlaybackConfig(d) => PlaybackConfigData::wf(d),
            FrameView::AssetReference(d) => AssetReferenceData::wf(d),
            FrameView::Heartbeat => true,
        }
    }

    fn encode(&self, out: &mut Vec<u8>) {
        self.tag().encode(out);
        match self {
            Frame::Timestamp(d) => {
                d.encode(out);
            },
            Frame::Keyframe(d) => {
                d.encode(out);
            },
            Frame::ViewportResized(d) => {
                d.encode(out);
            },
            Frame::ScrollOffsetChanged(d) => {
                d.encode(out);
            },
            Frame::MouseMoved(d) => {
                d.encode(out);
            },
            Frame::MouseClicked(d) => {
                d.encode(out);
            },
            Frame::KeyPressed(d) => {
                d.encode(out);
            },
            Frame::ElementFocused(d) => {
                d.encode(out);
            },
            Frame::TextSelectionChanged(d) => {
                d.encode(out);
            },
            Frame::DomNodeAdded(d) => {
                d.encode(out);
            },
            Frame::DomNodeRemoved(d) => {
                d.encode(out);
            },
            Frame::DomAttributeChanged(d) => {
                d.encode(out);
            },
            Frame::DomAttributeRemoved(d) => {
                d.encode(out);
            },
            Frame::DomTextChanged(d) => {
                d.encode(out);
            },
            Frame::DomNodeResized(d) => {
                d.encode(out);
            },
            Frame::DomNodePropertyChanged(d) => {
                d.encode(out);
            },
            Frame::Asset(d) => {
                d.encode(out);
            },
            Frame::AdoptedStyleSheetsChanged(d) => {
                d.encode(out);
            },
            Frame::NewAdoptedStyleSheet(d) => {
                d.encode(out);
            },
            Frame::ElementScrolled(d) => {
                d.encode(out);
            },
            Frame::ElementBlurred(d) => {
                d.encode(out);
            },
            Frame::WindowFocused(d) => {
                d.encode(out);
            },
            Frame::WindowBlurred(d) => {
                d.encode(out);
            },
            Frame::StyleSheetRuleInserted(d) => {
                d.encode(out);
            },
            Frame::StyleSheetRuleDeleted(d) => {
                d.encode(out);
            },
            Frame::StyleSheetReplaced(d) => {
                d.encode(out);
            },
            Frame::CanvasChanged(d) => {
                d.encode(out);
            },
            Frame::DomNodePropertyTextChanged(d) => {
                d.encode(out);
            },
            Frame::RecordingMetadata(d) => {
                d.encode(out);
            },
            Frame::CacheManifest(d) => {
                d.encode(out);
            },
            Frame::PlaybackConfig(d) => {
                d.encode(out);
            },
            Frame::AssetReference(d) => {
                d.encode(out);
            },
            Frame::Heartbeat => {
            },
        }
        assert(out@ =~= old(out)@ + Self::encoding(self.deep_view()));
    }

    fn decode(input: &[u8], pos: usize) -> (r: Decoded<Frame>) {
        let (tag, start) = u32::decode(input, pos)?;
        if tag <= 7 {
            decode_tagged_0_7(tag, input, pos, start)
        } else if tag <= 15 {
            decode_tagged_8_15(tag, input, pos, start)
        } else if tag <= 22 {
            decode_tagged_16_22(tag, input, pos, start)
        } else if tag <= 27 {
            decode_tagged_23_27(tag, input, pos, start)
        } else if tag <= 32 {
            decode_tagged_28_32(tag, input, pos, start)
        } else {
            Err(DecodeError::UnknownTag)
        }
    }

    proof fn lemma_roundtrip(v: FrameView, s: Seq<u8>, pos: int) {
        match v {
            FrameView::Timestamp(d) => {
                lemma_tagged_roundtrip::<TimestampData>(0, d, s, pos);
            },
            FrameView::Keyframe(d) => {
                lemma_tagged_roundtrip::<KeyframeData>(1, d, s, pos);
            },
            FrameView::ViewportResized(d) => {
                lemma_tagged_roundtrip::<ViewportResizedData>(2, d, s, pos);
            },
            FrameView::ScrollOffsetChanged(d) => {
                lemma_tagged_roundtrip::<ScrollOffsetChangedData>(3, d, s, pos);
            },
            FrameView::MouseMoved(d) => {
                lemma_tagged_roundtrip::<MouseMovedData>(4, d, s, pos);
            },
            FrameView::MouseClicked(d) => {
                lemma_tagged_roundtrip::<MouseClickedData>(5, d, s, pos);
            },
            FrameView::KeyPressed(d) => {
                lemma_tagged_roundtrip::<KeyPressedData>(6, d, s, pos);
            },
            FrameView::ElementFocused(d) => {
                lemma_tagged_roundtrip::<ElementFocusedData>(7, d, s, pos);
            },
            FrameView::TextSelectionChanged(d) => {
                lemma_tagged_roundtrip::<TextSelectionChangedData>(8, d, s, pos);
            },
            FrameView::DomNodeAdded(d) => {
                lemma_tagged_roundtrip::<DomNodeAddedData>(9, d, s, pos);
            },
            FrameView::DomNodeRemoved(d) => {
                lemma_tagged_roundtrip::<DomNodeRemovedData>(10, d, s, pos);
            },
            FrameView::DomAttributeChanged(d) => {
                lemma_tagged_roundtrip::<DomAttributeChangedData>(11, d, s, pos);
            },
            FrameView::DomAttributeRemoved(d) => {
                lemma_tagged_roundtrip::<DomAttributeRemovedData>(12, d, s, pos);
            },
            FrameView::DomTextChanged(d) => {
                lemma_tagged_roundtrip::<DomTextChangedData>(13, d, s, pos);
            },
            FrameView::DomNodeResized(d) => {
                lemma_tagged_roundtrip::<DomNodeResizedData>(14, d, s, pos);
            },
            FrameView::DomNodePropertyChanged(d) => {
                lemma_tagged_roundtrip::<DomNodePropertyChangedData>(15, d, s, pos);
            },
            FrameView::Asset(d) => {
                lemma_tagged_roundtrip::<AssetData>(16, d, s, pos);
            },
            FrameView::AdoptedStyleSheetsChanged(d) => {
                lemma_tagged_roundtrip::<AdoptedStyleSheetsChangedData>(17, d, s, pos);
            },
            FrameView::NewAdoptedStyleSheet(d) => {
                lemma_tagged_roundtrip::<NewAdoptedStyleSheetData>(18, d, s, pos);
            },
            FrameView::ElementScrolled(d) => {
                lemma_tagged_roundtrip::<ElementScrolledData>(19, d, s, pos);
            },
            FrameView::ElementBlurred(d) => {
                lemma_tagged_roundtrip::<ElementBlurredData>(20, d, s, pos);
            },
            FrameView::WindowFocused(d) => {
                lemma_tagged_roundtrip::<WindowFocusedData>(21, d, s, pos);
            },
            FrameView::WindowBlurred(d) => {
                lemma_tagged_roundtrip::<WindowBlurredData>(22, d, s, pos);
            },
            FrameView::StyleSheetRuleInserted(d) => {
                lemma_tagged_roundtrip::<StyleSheetRuleInsertedData>(23, d, s, pos);
            },
            FrameView::StyleSheetRuleDeleted(d) => {
                lemma_tagged_roundtrip::<StyleSheetRuleDeletedData>(24, d, s, pos);
            },
            FrameView::StyleSheetReplaced(d) => {
                lemma_tagged_roundtrip::<StyleSheetReplacedData>(25, d, s, pos);
            },
            FrameView::CanvasChanged(d) => {
                lemma_tagged_roundtrip::<CanvasChangedData>(26, d, s, pos);
            },
            FrameView::DomNodePropertyTextChanged(d) => {
                lemma_tagged_roundtrip::<DomNodePropertyTextChangedData>(27, d, s, pos);
            },
            FrameView::RecordingMetadata(d) => {
                lemma_tagged_roundtrip::<RecordingMetadataData>(28, d, s, pos);
            },
            FrameView::CacheManifest(d) => {
                lemma_tagged_roundtrip::<CacheManifestData>(29, d, s, pos);
            },
            FrameView::PlaybackConfig(d) => {
                lemma_tagged_roundtrip::<PlaybackConfigData>(30, d, s, pos);
            },
            FrameView::AssetReference(d) => {
                lemma_tagged_roundtrip::<AssetReferenceData>(31, d, s, pos);
            },
            FrameView::Heartbeat => {
                u32::lemma_roundtrip(32, s, pos);
            },
        }
    }
}

} // verus!
