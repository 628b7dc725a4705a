use domcorder::frame::{
    AdoptedStyleSheetsChangedData, AssetData, AssetFetchError, AssetReferenceData,
    CacheManifestData, CanvasChangedData, DomAttributeChangedData, DomAttributeRemovedData,
    DomNodeAddedData, DomNodePropertyChangedData, DomNodePropertyTextChangedData,
    DomNodeRemovedData, DomNodeResizedData, DomTextChangedData, ElementBlurredData,
    ElementFocusedData, ElementScrolledData, Frame, KeyPressedData, KeyframeData,
    ManifestEntryData, MouseClickedData, MouseMovedData, NewAdoptedStyleSheetData,
    PlaybackConfigData, RecordingMetadataData, ScrollOffsetChangedData,
    StyleSheetReplacedData, StyleSheetRuleDeletedData, StyleSheetRuleInsertedData,
    TextInsertOperationData, TextOperationData, TextRemoveOperationData,
    TextSelectionChangedData, TimestampData, ViewportResizedData, WindowBlurredData,
    WindowFocusedData,
};
use domcorder::reader::{FrameReader, ReadError};
use domcorder::vdom::{
    VCDATASection, VComment, VDocument, VDocumentType, VElement, VNode, VProcessingInstruction,
    VStyleSheet, VTextNode,
};
use domcorder::wire::prim::DecodeError;
use domcorder::wire::record::{decode_frame, encode_frame, encode_record};
use domcorder::wire::vdom::{decode_node, encode_node, MAX_DEPTH};
use domcorder::writer::{FileHeader, FrameWriter, WriteError, DCRR_MAGIC, DCRR_VERSION, HEADER_SIZE};

fn sample_frames() -> Vec<Frame> {
    vec![
        Frame::Timestamp(TimestampData {
            timestamp: 1722550000000,
        }),
        Frame::Keyframe(KeyframeData {
            document: VDocument {
                id: 0,                       
                adopted_style_sheets: vec![],
                children: vec![
                    // Child 0: DOCTYPE node
                    VNode::DocType(VDocumentType {
                        id: 1,
                        name: "html".to_string(),
                        public_id: None,
                        system_id: None,
                    }),
                    // Child 1: HTML element
                    VNode::Element(VElement {
                        id: 2,
                        tag: "html".to_string(),
                        ns: None,
                        attrs: vec![],
                        children: vec![
                            // Child 0: HEAD element
                            VNode::Element(VElement {
                                id: 3,
                                tag: "head".to_string(),
                                ns: None,
                                attrs: vec![],
                                children: vec![
                                    // Child 0: whitespace text node
                                    VNode::Text(VTextNode {
                                        id: 4,
                                        content: "\n    ".to_string(),
                                    }),
                                    // Child 1: META element
                                    VNode::Element(VElement {
                                        id: 5,
                                        tag: "meta".to_string(),
                                        ns: None,
                                        attrs: vec![("charset".to_string(), "utf-8".to_string())],
                                        children: vec![],
                                    }),
                                    // Child 2: whitespace text node
                                    VNode::Text(VTextNode {
                                        id: 6,
                                        content: "\n    ".to_string(),
                                    }),
                                    // Child 3: TITLE element
                                    VNode::Element(VElement {
                                        id: 7,
                                        tag: "title".to_string(),
                                        ns: None,
                                        attrs: vec![],
                                        children: vec![VNode::Text(VTextNode {
                                            id: 8,
                                            content: "Test Document".to_string(),
                                        })],
                                    }),
                                    // Child 4: whitespace text node
                                    VNode::Text(VTextNode {
                                        id: 9,
                                        content: "\n    ".to_string(),
                                    }),
                                    // Child 5: comment node
                                    VNode::Comment(VComment {
                                        id: 10,
                                        content:
                                            "?xml-stylesheet type=\"text/css\" href=\"style.css\"?"
                                                .to_string(),
                                    }),
                                    // Child 6: whitespace text node
                                    VNode::Text(VTextNode {
                                        id: 11,
                                        content: "\n".to_string(),
                                    }),
                                ],
                            }),
                            // Child 1: whitespace text node
                            VNode::Text(VTextNode {
                                id: 12,
                                content: "\n".to_string(),
                            }),
                            // Child 2: BODY element
                            VNode::Element(VElement {
                                id: 13,
                                tag: "body".to_string(),
                                ns: None,
                                attrs: vec![],
                                children: vec![
                                    // Child 0: whitespace text node
                                    VNode::Text(VTextNode {
                                        id: 14,
                                        content: "\n    ".to_string(),
                                    }),
                                    // Child 1: comment node
                                    VNode::Comment(VComment {
                                        id: 15,
                                        content: " This is a comment ".to_string(),
                                    }),
                                    // Child 2: whitespace text node
                                    VNode::Text(VTextNode {
                                        id: 16,
                                        content: "\n    ".to_string(),
                                    }),
                                    // Child 3: DIV element
                                    VNode::Element(VElement {
                                        id: 17,
                                        tag: "div".to_string(),
                                        ns: None,
                                        attrs: vec![("id".to_string(), "root".to_string())],
                                        children: vec![
                                            VNode::Text(VTextNode {
                                                id: 18,
                                                content: "\n        ".to_string(),
                                            }),
                                            VNode::Element(VElement {
                                                id: 19,
                                                tag: "h1".to_string(),
                                                ns: None,
                                                attrs: vec![],
                                                children: vec![VNode::Text(VTextNode {
                                                    id: 20,
                                                    content: "Hello World".to_string(),
                                                })],
                                            }),
                                            VNode::Text(VTextNode {
                                                id: 21,
                                                content: "\n        ".to_string(),
                                            }),
                                            VNode::Element(VElement {
                                                id: 22,
                                                tag: "p".to_string(),
                                                ns: None,
                                                attrs: vec![],
                                                children: vec![VNode::Text(VTextNode {
                                                    id: 23,
                                                    content: "This is a test paragraph."
                                                        .to_string(),
                                                })],
                                            }),
                                            VNode::Text(VTextNode {
                                                id: 24,
                                                content: "\n        ".to_string(),
                                            }),
                                            VNode::Element(VElement {
                                                id: 25,
                                                tag: "button".to_string(),
                                                ns: None,
                                                attrs: vec![(
                                                    "onclick".to_string(),
                                                    "alert('clicked')".to_string(),
                                                )],
                                                children: vec![VNode::Text(VTextNode {
                                                    id: 26,
                                                    content: "Click me".to_string(),
                                                })],
                                            }),
                                            // Child 6: whitespace text node
                                            VNode::Text(VTextNode {
                                                id: 27,
                                                content: "\n        ".to_string(),
                                            }),
                                            // Child 7: SVG element with namespace
                                            VNode::Element(VElement {
                                                id: 28,
                                                tag: "svg".to_string(),
                                                ns: Some("http://www.w3.org/2000/svg".to_string()),
                                                attrs: vec![
                                                    ("width".to_string(), "100".to_string()),
                                                    ("height".to_string(), "100".to_string()),
                                                ],
                                                children: vec![VNode::Element(VElement {
                                                    id: 29,
                                                    tag: "circle".to_string(),
                                                    ns: Some(
                                                        "http://www.w3.org/2000/svg".to_string(),
                                                    ),
                                                    attrs: vec![
                                                        ("cx".to_string(), "50".to_string()),
                                                        ("cy".to_string(), "50".to_string()),
                                                        ("r".to_string(), "40".to_string()),
                                                        ("fill".to_string(), "red".to_string()),
                                                    ],
                                                    children: vec![],
                                                })],
                                            }),
                                            // Child 8: whitespace text node
                                            VNode::Text(VTextNode {
                                                id: 30,
                                                content: "\n        ".to_string(),
                                            }),
                                            VNode::Comment(VComment {
                                                id: 31,
                                                content: "[CDATA[This is CDATA content]]"
                                                    .to_string(),
                                            }),
                                            VNode::Text(VTextNode {
                                                id: 32,
                                                content: "\n    ".to_string(),
                                            }),
                                        ],
                                    }),
                                    // Child 4: whitespace text node
                                    VNode::Text(VTextNode {
                                        id: 33,
                                        content: "\n\n\n".to_string(),
                                    }),
                                ],
                            }),
                        ],
                    }),
                ],
            },
            viewport_width: 1920,
            viewport_height: 1080,
        }),
        Frame::Asset(AssetData {
            asset_id: 123,
            url: "https://example.com/image.png".to_string(),
            mime: Some("image/png".to_string()),
            buf: vec![0x89, 0x50, 0x4E, 0x47, 0x0D, 0x0A, 0x1A, 0x0A], // PNG header
            fetch_error: AssetFetchError::NoError,
        }),
        Frame::ViewportResized(ViewportResizedData {
            width: 1920,
            height: 1080,
        }),
        Frame::ScrollOffsetChanged(ScrollOffsetChangedData {
            scroll_x_offset: 0,
            scroll_y_offset: 240,
        }),
        Frame::MouseMoved(MouseMovedData { x: 150, y: 200 }),
        Frame::MouseClicked(MouseClickedData { x: 150, y: 200 }),
        Frame::KeyPressed(KeyPressedData {
            code: "Enter".to_string(),
            ctrl_key: false,
            alt_key: false,
            shift_key: false,
            meta_key: false,
        }),
        Frame::ElementFocused(ElementFocusedData { node_id: 42 }),
        Frame::DomTextChanged(DomTextChangedData {
            node_id: 42,
            operations: vec![
                TextOperationData::Remove(TextRemoveOperationData {
                    index: 0,
                    length: 5,
                }),
                TextOperationData::Insert(TextInsertOperationData {
                    index: 0,
                    text: "Updated".to_string(),
                }),
            ],
        }),
        Frame::DomNodeAdded(DomNodeAddedData {
            parent_node_id: 1,
            index: 0,
            node: VNode::Element(VElement {
                id: 99,
                tag: "span".to_string(),
                ns: None,
                attrs: vec![("class".to_string(), "new-element".to_string())],
                children: vec![VNode::Text(VTextNode {
                    id: 100,
                    content: "New content".to_string(),
                })],
            }),
        }),
        Frame::DomNodeRemoved(DomNodeRemovedData { node_id: 43 }),
        Frame::DomAttributeChanged(DomAttributeChangedData {
            node_id: 42,
            attribute_name: "class".to_string(),
            attribute_value: "updated-class".to_string(),
        }),
        Frame::TextSelectionChanged(TextSelectionChangedData {
            selection_start_node_id: 42,
            selection_start_offset: 5,
            selection_end_node_id: 42,
            selection_end_offset: 10,
        }),
        Frame::DomAttributeRemoved(DomAttributeRemovedData {
            node_id: 42,
            attribute_name: "onclick".to_string(),
        }),
        Frame::DomNodeResized(DomNodeResizedData {
            node_id: 42,
            width: 300,
            height: 200,
        }),
        Frame::AdoptedStyleSheetsChanged(AdoptedStyleSheetsChangedData {
            style_sheet_ids: vec![1, 2, 3],
            added_count: 1,
        }),
        Frame::NewAdoptedStyleSheet(NewAdoptedStyleSheetData {
            style_sheet: VStyleSheet {
                id: 1,
                text: "body { color: red; }".to_string(),
                media: Some("screen".to_string()),
            },
        }),
        Frame::ElementScrolled(ElementScrolledData {
            node_id: 42,
            scroll_x_offset: 10,
            scroll_y_offset: 20,
        }),
        Frame::ElementBlurred(ElementBlurredData { node_id: 42 }),
        Frame::WindowFocused(WindowFocusedData {}),
        Frame::WindowBlurred(WindowBlurredData {}),
    ]
}

#[test]
fn write_sample_frame_stream() {
    // Write frames to a stream (no header)
    let mut writer = FrameWriter::new(Vec::new());

    let frames = sample_frames();
    for frame in &frames {
        writer.write_frame(frame).unwrap();
    }
    writer.flush().unwrap();
    let buffer = writer.into_inner();

    println!("Wrote {} frames to stream ({} bytes)", frames.len(), buffer.len());

    // Read back and verify
    let mut reader = FrameReader::new(false);
    reader.feed(&buffer);
    reader.finish();

    let mut read_frames = Vec::new();
    while let Some(frame) = reader.read_frame().unwrap() {
        read_frames.push(frame);
    }

    assert_eq!(read_frames.len(), frames.len());
    for (i, (written, read)) in frames.iter().zip(read_frames.iter()).enumerate() {
        assert_eq!(written, read, "Frame {} should match", i);
    }
}

#[test]
fn write_sample_file_stream() {
    // Write the file format (header + frames)
    let mut writer = FrameWriter::new(Vec::new());

    // Write header
    let header = FileHeader::with_timestamp(1691234567890);
    writer.write_header(&header).unwrap();

    // Write frames
    let frames = sample_frames();
    for frame in &frames {
        writer.write_frame(frame).unwrap();
    }
    writer.flush().unwrap();
    let buffer = writer.into_inner();

    println!("Wrote file with header + {} frames ({} bytes)", frames.len(), buffer.len());

    // Read back and verify
    let mut reader = FrameReader::new(true);
    reader.feed(&buffer);
    reader.finish();

    // Read header
    let read_header = reader.read_header().unwrap();
    assert_eq!(read_header.created_at, header.created_at);
    assert_eq!(read_header.version, header.version);

    // Read frames
    let mut read_frames = Vec::new();
    while let Some(frame) = reader.read_frame().unwrap() {
        read_frames.push(frame);
    }

    assert_eq!(read_frames.len(), frames.len());
    for (i, (written, read)) in frames.iter().zip(read_frames.iter()).enumerate() {
        assert_eq!(written, read, "Frame {} should match", i);
    }
}

#[test]
fn single_byte_chunks_give_the_same_frames() {
    let mut writer = FrameWriter::new(Vec::new());
    let frames = sample_frames();
    for frame in &frames {
        writer.write_frame(frame).unwrap();
    }
    let buffer = writer.into_inner();

    let mut reader = FrameReader::new(false);
    let mut read_frames = Vec::new();
    for byte in &buffer {
        reader.feed(&[*byte]);
        loop {
            match reader.read_frame() {
                Ok(Some(frame)) => read_frames.push(frame),
                Ok(None) => panic!("the source has not ended"),
                Err(ReadError::NeedMoreData) => break,
                Err(e) => panic!("unexpected error {:?}", e),
            }
        }
    }
    reader.finish();
    assert_eq!(reader.read_frame(), Ok(None));
    assert_eq!(read_frames, frames);
}

#[test]
fn tag_of_timestamp_is_0() {
    let frame = Frame::Timestamp(TimestampData { timestamp: 7 });
    assert_eq!(frame.tag(), 0);
    assert_eq!(encode_frame(&frame)[0..4], [0, 0, 0, 0]);
}

#[test]
fn tag_of_keyframe_is_1() {
    let frame = Frame::Keyframe(KeyframeData { document: VDocument { id: 7, adopted_style_sheets: Vec::new(), children: Vec::new() }, viewport_width: 7, viewport_height: 7 });
    assert_eq!(frame.tag(), 1);
    assert_eq!(encode_frame(&frame)[0..4], [0, 0, 0, 1]);
}

#[test]
fn tag_of_viewport_resized_is_2() {
    let frame = Frame::ViewportResized(ViewportResizedData { width: 7, height: 7 });
    assert_eq!(frame.tag(), 2);
    assert_eq!(encode_frame(&frame)[0..4], [0, 0, 0, 2]);
}

#[test]
fn tag_of_scroll_offset_changed_is_3() {
    let frame = Frame::ScrollOffsetChanged(ScrollOffsetChangedData { scroll_x_offset: 7, scroll_y_offset: 7 });
    assert_eq!(frame.tag(), 3);
    assert_eq!(encode_frame(&frame)[0..4], [0, 0, 0, 3]);
}

#[test]
fn tag_of_mouse_moved_is_4() {
    let frame = Frame::MouseMoved(MouseMovedData { x: 7, y: 7 });
    assert_eq!(frame.tag(), 4);
    assert_eq!(encode_frame(&frame)[0..4], [0, 0, 0, 4]);
}

#[test]
fn tag_of_mouse_clicked_is_5() {
    let frame = Frame::MouseClicked(MouseClickedData { x: 7, y: 7 });
    assert_eq!(frame.tag(), 5);
    assert_eq!(encode_frame(&frame)[0..4], [0, 0, 0, 5]);
}

#[test]
fn tag_of_key_pressed_is_6() {
    let frame = Frame::KeyPressed(KeyPressedData { code: String::new(), alt_key: false, ctrl_key: false, meta_key: false, shift_key: false });
    assert_eq!(frame.tag(), 6);
    assert_eq!(encode_frame(&frame)[0..4], [0, 0, 0, 6]);
}

#[test]
fn tag_of_element_focused_is_7() {
    let frame = Frame::ElementFocused(ElementFocusedData { node_id: 7 });
    assert_eq!(frame.tag(), 7);
    assert_eq!(encode_frame(&frame)[0..4], [0, 0, 0, 7]);
}

#[test]
fn tag_of_text_selection_changed_is_8() {
    let frame = Frame::TextSelectionChanged(TextSelectionChangedData { selection_start_node_id: 7, selection_start_offset: 7, selection_end_node_id: 7, selection_end_offset: 7 });
    assert_eq!(frame.tag(), 8);
    assert_eq!(encode_frame(&frame)[0..4], [0, 0, 0, 8]);
}

#[test]
fn tag_of_dom_node_added_is_9() {
    let frame = Frame::DomNodeAdded(DomNodeAddedData { parent_node_id: 7, index: 7, node: VNode::Text(VTextNode { id: 1, content: String::new() }) });
    assert_eq!(frame.tag(), 9);
    assert_eq!(encode_frame(&frame)[0..4], [0, 0, 0, 9]);
}

#[test]
fn tag_of_dom_node_removed_is_10() {
    let frame = Frame::DomNodeRemoved(DomNodeRemovedData { node_id: 7 });
    assert_eq!(frame.tag(), 10);
    assert_eq!(encode_frame(&frame)[0..4], [0, 0, 0, 10]);
}

#[test]
fn tag_of_dom_attribute_changed_is_11() {
    let frame = Frame::DomAttributeChanged(DomAttributeChangedData { node_id: 7, attribute_name: String::new(), attribute_value: String::new() });
    assert_eq!(frame.tag(), 11);
    assert_eq!(encode_frame(&frame)[0..4], [0, 0, 0, 11]);
}

#[test]
fn tag_of_dom_attribute_removed_is_12() {
    let frame = Frame::DomAttributeRemoved(DomAttributeRemovedData { node_id: 7, attribute_name: String::new() });
    assert_eq!(frame.tag(), 12);
    assert_eq!(encode_frame(&frame)[0..4], [0, 0, 0, 12]);
}

#[test]
fn tag_of_dom_text_changed_is_13() {
    let frame = Frame::DomTextChanged(DomTextChangedData { node_id: 7, operations: Vec::new() });
    assert_eq!(frame.tag(), 13);
    assert_eq!(encode_frame(&frame)[0..4], [0, 0, 0, 13]);
}

#[test]
fn tag_of_dom_node_resized_is_14() {
    let frame = Frame::DomNodeResized(DomNodeResizedData { node_id: 7, width: 7, height: 7 });
    assert_eq!(frame.tag(), 14);
    assert_eq!(encode_frame(&frame)[0..4], [0, 0, 0, 14]);
}

#[test]
fn tag_of_dom_node_property_changed_is_15() {
    let frame = Frame::DomNodePropertyChanged(DomNodePropertyChangedData { node_id: 7, property_name: String::new(), property_value: String::new() });
    assert_eq!(frame.tag(), 15);
    assert_eq!(encode_frame(&frame)[0..4], [0, 0, 0, 15]);
}

#[test]
fn tag_of_asset_is_16() {
    let frame = Frame::Asset(AssetData { asset_id: 7, url: String::new(), mime: None, buf: Vec::new(), fetch_error: AssetFetchError::NoError });
    assert_eq!(frame.tag(), 16);
    assert_eq!(encode_frame(&frame)[0..4], [0, 0, 0, 16]);
}

#[test]
fn tag_of_adopted_style_sheets_changed_is_17() {
    let frame = Frame::AdoptedStyleSheetsChanged(AdoptedStyleSheetsChangedData { style_sheet_ids: Vec::new(), added_count: 7 });
    assert_eq!(frame.tag(), 17);
    assert_eq!(encode_frame(&frame)[0..4], [0, 0, 0, 17]);
}

#[test]
fn tag_of_new_adopted_style_sheet_is_18() {
    let frame = Frame::NewAdoptedStyleSheet(NewAdoptedStyleSheetData { style_sheet: VStyleSheet { id: 7, text: String::new(), media: None } });
    assert_eq!(frame.tag(), 18);
    assert_eq!(encode_frame(&frame)[0..4], [0, 0, 0, 18]);
}

#[test]
fn tag_of_element_scrolled_is_19() {
    let frame = Frame::ElementScrolled(ElementScrolledData { node_id: 7, scroll_x_offset: 7, scroll_y_offset: 7 });
    assert_eq!(frame.tag(), 19);
    assert_eq!(encode_frame(&frame)[0..4], [0, 0, 0, 19]);
}

#[test]
fn tag_of_element_blurred_is_20() {
    let frame = Frame::ElementBlurred(ElementBlurredData { node_id: 7 });
    assert_eq!(frame.tag(), 20);
    assert_eq!(encode_frame(&frame)[0..4], [0, 0, 0, 20]);
}

#[test]
fn tag_of_window_focused_is_21() {
    let frame = Frame::WindowFocused(WindowFocusedData {  });
    assert_eq!(frame.tag(), 21);
    assert_eq!(encode_frame(&frame)[0..4], [0, 0, 0, 21]);
}

#[test]
fn tag_of_window_blurred_is_22() {
    let frame = Frame::WindowBlurred(WindowBlurredData {  });
    assert_eq!(frame.tag(), 22);
    assert_eq!(encode_frame(&frame)[0..4], [0, 0, 0, 22]);
}

#[test]
fn tag_of_style_sheet_rule_inserted_is_23() {
    let frame = Frame::StyleSheetRuleInserted(StyleSheetRuleInsertedData { style_sheet_id: 7, rule_index: 7, content: String::new() });
    assert_eq!(frame.tag(), 23);
    assert_eq!(encode_frame(&frame)[0..4], [0, 0, 0, 23]);
}

#[test]
fn tag_of_style_sheet_rule_deleted_is_24() {
    let frame = Frame::StyleSheetRuleDeleted(StyleSheetRuleDeletedData { style_sheet_id: 7, rule_index: 7 });
    assert_eq!(frame.tag(), 24);
    assert_eq!(encode_frame(&frame)[0..4], [0, 0, 0, 24]);
}

#[test]
fn tag_of_style_sheet_replaced_is_25() {
    let frame = Frame::StyleSheetReplaced(StyleSheetReplacedData { style_sheet_id: 7, content: String::new() });
    assert_eq!(frame.tag(), 25);
    assert_eq!(encode_frame(&frame)[0..4], [0, 0, 0, 25]);
}

#[test]
fn tag_of_canvas_changed_is_26() {
    let frame = Frame::CanvasChanged(CanvasChangedData { node_id: 7, mime_type: String::new(), data: Vec::new() });
    assert_eq!(frame.tag(), 26);
    assert_eq!(encode_frame(&frame)[0..4], [0, 0, 0, 26]);
}

#[test]
fn tag_of_dom_node_property_text_changed_is_27() {
    let frame = Frame::DomNodePropertyTextChanged(DomNodePropertyTextChangedData { node_id: 7, property_name: String::new(), operations: Vec::new() });
    assert_eq!(frame.tag(), 27);
    assert_eq!(encode_frame(&frame)[0..4], [0, 0, 0, 27]);
}

#[test]
fn tag_of_recording_metadata_is_28() {
    let frame = Frame::RecordingMetadata(RecordingMetadataData { initial_url: String::new() });
    assert_eq!(frame.tag(), 28);
    assert_eq!(encode_frame(&frame)[0..4], [0, 0, 0, 28]);
}

#[test]
fn tag_of_cache_manifest_is_29() {
    let frame = Frame::CacheManifest(CacheManifestData { site_origin: String::new(), assets: Vec::new() });
    assert_eq!(frame.tag(), 29);
    assert_eq!(encode_frame(&frame)[0..4], [0, 0, 0, 29]);
}

#[test]
fn tag_of_playback_config_is_30() {
    let frame = Frame::PlaybackConfig(PlaybackConfigData { storage_type: String::new(), config_json: String::new(), is_live: false, latest_timestamp: None });
    assert_eq!(frame.tag(), 30);
    assert_eq!(encode_frame(&frame)[0..4], [0, 0, 0, 30]);
}

#[test]
fn tag_of_asset_reference_is_31() {
    let frame = Frame::AssetReference(AssetReferenceData { asset_id: 7, url: String::new(), hash: String::new(), mime: None });
    assert_eq!(frame.tag(), 31);
    assert_eq!(encode_frame(&frame)[0..4], [0, 0, 0, 31]);
}

#[test]
fn tag_of_heartbeat_is_32() {
    let frame = Frame::Heartbeat;
    assert_eq!(frame.tag(), 32);
    assert_eq!(encode_frame(&frame)[0..4], [0, 0, 0, 32]);
}

#[test]
fn test_frame_validation() {
    // A header and a frame that were written can be read back.
    let mut writer = FrameWriter::new(Vec::new());
    let header = FileHeader::new();
    writer.write_header(&header).unwrap();

    let timestamp_frame = Frame::Timestamp(TimestampData { timestamp: 1234567890 });
    writer.write_frame(&timestamp_frame).unwrap();

    let frame_data = writer.into_inner();

    let mut reader = FrameReader::new(true);
    reader.feed(&frame_data);
    reader.finish();
    let read_header = reader.read_header().unwrap();
    assert_eq!(read_header.version, 1);

    let frame = reader.read_frame().unwrap();
    assert!(frame.is_some());
}

#[test]
fn every_sample_frame_decodes_to_itself() {
    for frame in sample_frames() {
        let payload = encode_frame(&frame);
        assert_eq!(decode_frame(&payload), Ok(frame));
    }
}

#[test]
fn control_frames_decode_to_themselves() {
    let frames = vec![
        Frame::RecordingMetadata(RecordingMetadataData {
            initial_url: "https://example.com/".to_string(),
        }),
        Frame::CacheManifest(CacheManifestData {
            site_origin: "https://example.com".to_string(),
            assets: vec![ManifestEntryData {
                url: "https://example.com/a.png".to_string(),
                sha256_hash: "ab".repeat(32),
            }],
        }),
        Frame::PlaybackConfig(PlaybackConfigData {
            storage_type: "local".to_string(),
            config_json: "{}".to_string(),
            is_live: true,
            latest_timestamp: Some(17),
        }),
        Frame::AssetReference(AssetReferenceData {
            asset_id: 4,
            url: "https://example.com/a.png".to_string(),
            hash: "x".repeat(43),
            mime: None,
        }),
        Frame::Heartbeat,
        Frame::Asset(AssetData {
            asset_id: 1,
            url: "u".to_string(),
            mime: None,
            buf: vec![],
            fetch_error: AssetFetchError::Unknown("why".to_string()),
        }),
        Frame::CanvasChanged(CanvasChangedData {
            node_id: 2,
            mime_type: "image/png".to_string(),
            data: vec![1, 2, 3],
        }),
        Frame::DomNodeAdded(DomNodeAddedData {
            parent_node_id: 1,
            index: 0,
            node: VNode::ProcessingInstruction(VProcessingInstruction {
                id: 9,
                target: "xml".to_string(),
                data: "version".to_string(),
            }),
        }),
        Frame::DomNodeAdded(DomNodeAddedData {
            parent_node_id: 1,
            index: 0,
            node: VNode::CData(VCDATASection { id: 9, content: "raw".to_string() }),
        }),
    ];
    for frame in frames {
        let payload = encode_frame(&frame);
        assert_eq!(decode_frame(&payload), Ok(frame));
    }
}

#[test]
fn encoding_is_the_same_every_time() {
    for frame in sample_frames() {
        assert_eq!(encode_frame(&frame), encode_frame(&frame.clone()));
    }
}

#[test]
fn viewport_resized_has_these_bytes() {
    let frame = Frame::ViewportResized(ViewportResizedData { width: 1920, height: 1080 });
    assert_eq!(encode_frame(&frame), vec![0, 0, 0, 2, 0, 0, 0x07, 0x80, 0, 0, 0x04, 0x38]);
    assert_eq!(
        encode_record(&frame),
        Some(vec![0, 0, 0, 12, 0, 0, 0, 2, 0, 0, 0x07, 0x80, 0, 0, 0x04, 0x38])
    );
}

#[test]
fn timestamp_is_eight_bytes_big_endian() {
    let frame = Frame::Timestamp(TimestampData { timestamp: 0x0102030405060708 });
    assert_eq!(encode_frame(&frame), vec![0, 0, 0, 0, 1, 2, 3, 4, 5, 6, 7, 8]);
}

#[test]
fn key_pressed_has_these_bytes() {
    let frame = Frame::KeyPressed(KeyPressedData {
        code: "Enter".to_string(),
        alt_key: true,
        ctrl_key: false,
        meta_key: false,
        shift_key: true,
    });
    let mut expected = vec![0, 0, 0, 6, 0, 0, 0, 0, 0, 0, 0, 5];
    expected.extend_from_slice(b"Enter");
    expected.extend_from_slice(&[1, 0, 0, 1]);
    assert_eq!(encode_frame(&frame), expected);
}

#[test]
fn a_string_is_prefixed_with_its_length_in_bytes() {
    let frame = Frame::RecordingMetadata(RecordingMetadataData { initial_url: "é".to_string() });
    assert_eq!(encode_frame(&frame), vec![0, 0, 0, 28, 0, 0, 0, 0, 0, 0, 0, 2, 0xC3, 0xA9]);
}

#[test]
fn an_optional_is_one_byte_and_then_the_value() {
    let absent = Frame::AssetReference(AssetReferenceData {
        asset_id: 1,
        url: String::new(),
        hash: String::new(),
        mime: None,
    });
    let present = Frame::AssetReference(AssetReferenceData {
        asset_id: 1,
        url: String::new(),
        hash: String::new(),
        mime: Some("a".to_string()),
    });
    let head = vec![0, 0, 0, 31, 0, 0, 0, 1, 0, 0, 0, 0, 0, 0, 0, 0, 0, 0, 0, 0, 0, 0, 0, 0];
    let mut expected_absent = head.clone();
    expected_absent.push(0);
    let mut expected_present = head.clone();
    expected_present.extend_from_slice(&[1, 0, 0, 0, 0, 0, 0, 0, 1, b'a']);
    assert_eq!(encode_frame(&absent), expected_absent);
    assert_eq!(encode_frame(&present), expected_present);
}

#[test]
fn a_heartbeat_is_its_tag_alone() {
    assert_eq!(encode_frame(&Frame::Heartbeat), vec![0, 0, 0, 32]);
    assert_eq!(decode_frame(&[0, 0, 0, 32]), Ok(Frame::Heartbeat));
}

#[test]
fn an_unknown_tag_is_refused() {
    assert_eq!(decode_frame(&[0, 0, 0, 33]), Err(DecodeError::UnknownTag));
    assert_eq!(decode_frame(&[0xFF, 0xFF, 0xFF, 0xFF]), Err(DecodeError::UnknownTag));
}

#[test]
fn a_short_payload_is_refused() {
    assert_eq!(decode_frame(&[]), Err(DecodeError::UnexpectedEof));
    assert_eq!(decode_frame(&[0, 0, 0]), Err(DecodeError::UnexpectedEof));
    assert_eq!(decode_frame(&[0, 0, 0, 2, 0, 0, 7, 0x80]), Err(DecodeError::UnexpectedEof));
    // a string that says it is longer than what is left
    assert_eq!(
        decode_frame(&[0, 0, 0, 28, 0, 0, 0, 0, 0, 0, 0, 9, b'a']),
        Err(DecodeError::UnexpectedEof)
    );
    assert_eq!(
        decode_frame(&[0, 0, 0, 28, 0xFF, 0xFF, 0xFF, 0xFF, 0xFF, 0xFF, 0xFF, 0xFF, b'a']),
        Err(DecodeError::UnexpectedEof)
    );
}

#[test]
fn bytes_that_are_not_utf8_are_refused() {
    assert_eq!(
        decode_frame(&[0, 0, 0, 28, 0, 0, 0, 0, 0, 0, 0, 1, 0xFF]),
        Err(DecodeError::InvalidUtf8)
    );
}

#[test]
fn an_optional_byte_other_than_0_and_1_is_refused() {
    let mut payload = vec![0, 0, 0, 31, 0, 0, 0, 1];
    payload.extend_from_slice(&[0; 16]);
    payload.push(2);
    assert_eq!(decode_frame(&payload), Err(DecodeError::InvalidOption));
}

#[test]
fn a_boolean_byte_other_than_0_and_1_is_refused() {
    let mut payload = vec![0, 0, 0, 6, 0, 0, 0, 0, 0, 0, 0, 0];
    payload.extend_from_slice(&[0, 1, 2, 0]);
    assert_eq!(decode_frame(&payload), Err(DecodeError::InvalidBool));
}

#[test]
fn bytes_behind_the_frame_are_refused() {
    let mut payload = encode_frame(&Frame::MouseMoved(MouseMovedData { x: 150, y: 200 }));
    payload.push(0);
    assert_eq!(decode_frame(&payload), Err(DecodeError::TrailingBytes));
}

fn nested(levels: u32) -> VNode {
    let mut node = VNode::Text(VTextNode { id: 0, content: "leaf".to_string() });
    for id in 0..levels {
        node = VNode::Element(VElement {
            id: id + 1,
            tag: "div".to_string(),
            ns: None,
            attrs: vec![],
            children: vec![node],
        });
    }
    node
}

#[test]
fn elements_are_followed_as_deep_as_allowed_and_no_deeper() {
    let node = nested(3);
    let mut bytes = Vec::new();
    encode_node(&node, &mut bytes);
    let end = bytes.len();
    assert_eq!(decode_node(&bytes, 0, 3), Ok((node.clone(), end)));
    assert_eq!(decode_node(&bytes, 0, MAX_DEPTH), Ok((node, end)));
    assert_eq!(decode_node(&bytes, 0, 2), Err(DecodeError::DepthExceeded));
    assert_eq!(decode_node(&bytes, 0, 0), Err(DecodeError::DepthExceeded));
}

#[test]
fn a_deep_tree_decodes_to_itself() {
    let frame = Frame::DomNodeAdded(DomNodeAddedData {
        parent_node_id: 1,
        index: 0,
        node: nested(200),
    });
    assert_eq!(decode_frame(&encode_frame(&frame)), Ok(frame));
}

#[test]
fn a_copy_of_a_node_is_the_node() {
    let node = nested(4);
    assert_eq!(node.clone(), node);
}

#[test]
fn the_header_has_these_bytes() {
    let mut writer = FrameWriter::new(Vec::new());
    writer.write_header(&FileHeader::with_timestamp(0x0102030405060708)).unwrap();
    let bytes = writer.into_inner();
    let mut expected = b"DCRR".to_vec();
    expected.extend_from_slice(&[0, 0, 0, 1, 1, 2, 3, 4, 5, 6, 7, 8]);
    expected.extend_from_slice(&[0; 16]);
    assert_eq!(bytes.len(), HEADER_SIZE);
    assert_eq!(bytes, expected);
}

#[test]
fn a_new_header_is_of_the_current_format() {
    let header = FileHeader::new();
    assert_eq!(header.magic, DCRR_MAGIC);
    assert_eq!(header.version, DCRR_VERSION);
    assert_eq!(header.reserved, [0; 16]);
    assert!(header.created_at > 1_600_000_000_000);
}

#[test]
fn a_writer_writes_one_header_and_none_behind_a_frame() {
    let header = FileHeader::with_timestamp(5);
    let mut writer = FrameWriter::new(Vec::new());
    assert!(!writer.header_written());
    assert_eq!(writer.write_header(&header), Ok(()));
    assert!(writer.header_written());
    assert_eq!(writer.write_header(&header), Err(WriteError::HeaderAlreadyWritten));
    assert_eq!(writer.into_inner().len(), 32);

    let mut writer = FrameWriter::new(Vec::new());
    writer.write_frame(&Frame::Heartbeat).unwrap();
    assert_eq!(writer.write_header(&header), Err(WriteError::HeaderAfterFrame));
    assert_eq!(writer.flush(), Ok(()));
    assert_eq!(writer.into_inner(), vec![0, 0, 0, 4, 0, 0, 0, 32]);
}

#[test]
fn a_writer_appends_to_what_it_was_given() {
    let mut writer = FrameWriter::new(vec![9, 9]);
    writer.write_frame(&Frame::Heartbeat).unwrap();
    assert_eq!(writer.into_inner(), vec![9, 9, 0, 0, 0, 4, 0, 0, 0, 32]);
}

#[test]
fn a_reader_refuses_a_header_that_is_none() {
    let mut bytes = b"DCRX".to_vec();
    bytes.extend_from_slice(&[0; 28]);
    let mut reader = FrameReader::new(true);
    reader.feed(&bytes);
    assert_eq!(reader.read_header(), Err(ReadError::InvalidMagic));
    assert_eq!(reader.read_frame(), Err(ReadError::InvalidMagic));

    let mut bytes = b"DCRR".to_vec();
    bytes.extend_from_slice(&[0, 0, 0, 2]);
    bytes.extend_from_slice(&[0; 24]);
    let mut reader = FrameReader::new(true);
    reader.feed(&bytes);
    assert_eq!(reader.read_header(), Err(ReadError::UnsupportedVersion));
}

#[test]
fn a_reader_waits_for_the_whole_header() {
    let mut reader = FrameReader::new(true);
    reader.feed(b"DCRR");
    assert_eq!(reader.read_header(), Err(ReadError::NeedMoreData));
    assert!(reader.header().is_none());
    reader.feed(&[0, 0, 0, 1]);
    reader.feed(&[0, 0, 0, 0, 0, 0, 0, 42]);
    reader.feed(&[7; 16]);
    let header = reader.read_header().unwrap();
    assert_eq!(header.created_at, 42);
    assert_eq!(header.reserved, [7; 16]);
    assert_eq!(reader.header(), Some(&header));
    assert_eq!(reader.read_header(), Ok(header));
    reader.finish();
    assert_eq!(reader.read_frame(), Ok(None));
}

#[test]
fn a_reader_of_a_stream_without_a_header_has_none() {
    let mut reader = FrameReader::new(false);
    assert_eq!(reader.read_header(), Err(ReadError::NoHeader));
    assert!(reader.header().is_none());
}

#[test]
fn a_stream_that_ends_inside_a_header_or_a_frame_is_refused() {
    let mut reader = FrameReader::new(true);
    reader.feed(b"DCRR");
    reader.finish();
    assert_eq!(reader.read_header(), Err(ReadError::UnexpectedEof));

    let mut reader = FrameReader::new(false);
    reader.feed(&[0, 0, 0, 4, 0, 0]);
    assert_eq!(reader.read_frame(), Err(ReadError::NeedMoreData));
    reader.finish();
    assert_eq!(reader.read_frame(), Err(ReadError::UnexpectedEof));

    let mut reader = FrameReader::new(false);
    reader.feed(&[0, 0]);
    reader.finish();
    assert_eq!(reader.read_frame(), Err(ReadError::UnexpectedEof));
}

#[test]
fn a_reader_stays_at_a_record_that_is_no_frame() {
    let mut reader = FrameReader::new(false);
    reader.feed(&[0, 0, 0, 4, 0, 0, 0, 32]);
    reader.feed(&[0, 0, 0, 4, 0, 0, 0, 99]);
    reader.feed(&[0, 0, 0, 4, 0, 0, 0, 32]);
    assert_eq!(reader.read_frame(), Ok(Some(Frame::Heartbeat)));
    assert_eq!(reader.read_frame(), Err(ReadError::Decode(DecodeError::UnknownTag)));
    assert_eq!(reader.read_frame(), Err(ReadError::Decode(DecodeError::UnknownTag)));
    assert_eq!(reader.next(), Some(Err(ReadError::Decode(DecodeError::UnknownTag))));
}

#[test]
fn a_record_that_is_longer_than_its_frame_is_refused() {
    let mut reader = FrameReader::new(false);
    reader.feed(&[0, 0, 0, 5, 0, 0, 0, 32, 0]);
    assert_eq!(reader.read_frame(), Err(ReadError::Decode(DecodeError::TrailingBytes)));
}

#[test]
fn the_stream_of_a_reader_ends_with_none() {
    let mut reader = FrameReader::new(false);
    reader.feed(&[0, 0, 0, 4, 0, 0, 0, 32]);
    assert_eq!(reader.next(), Some(Ok(Frame::Heartbeat)));
    assert_eq!(reader.next(), Some(Err(ReadError::NeedMoreData)));
    reader.finish();
    assert_eq!(reader.next(), None);
}

#[test]
fn any_chunking_gives_the_same_frames() {
    let mut writer = FrameWriter::new(Vec::new());
    let frames = sample_frames();
    for frame in &frames {
        writer.write_frame(frame).unwrap();
    }
    let buffer = writer.into_inner();
    for size in [2usize, 3, 7, 64, 1000] {
        let mut reader = FrameReader::new(false);
        let mut read_frames = Vec::new();
        for chunk in buffer.chunks(size) {
            reader.feed(chunk);
            while let Ok(Some(frame)) = reader.read_frame() {
                read_frames.push(frame);
            }
        }
        assert_eq!(read_frames, frames);
    }
}
