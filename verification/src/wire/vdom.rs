//! The encoding of DOM trees.

use vstd::prelude::*;
use crate::vdom::node_view;
use crate::vdom::nodes_view;
use crate::vdom::VCDATASection;
use crate::vdom::VCDATASectionView;
use crate::vdom::VComment;
use crate::vdom::VCommentView;
use crate::vdom::VDocument;
use crate::vdom::VDocumentType;
use crate::vdom::VDocumentTypeView;
use crate::vdom::VDocumentView;
use crate::vdom::VElement;
use crate::vdom::VElementView;
use crate::vdom::VNode;
use crate::vdom::VNodeView;
use crate::vdom::VProcessingInstruction;
use crate::vdom::VProcessingInstructionView;
use crate::vdom::VStyleSheet;
use crate::vdom::VStyleSheetView;
use crate::vdom::VTextNode;
use crate::vdom::VTextNodeView;
use crate::wire::prim::after;
use crate::wire::prim::after_all;
use crate::wire::prim::be32;
use crate::wire::prim::be64;
use crate::wire::prim::holds_at;
use crate::wire::prim::lemma_holds_at_concat;
use crate::wire::prim::lemma_tagged_roundtrip;
use crate::wire::prim::DecodeError;
use crate::wire::prim::Decoded;
use crate::wire::prim::Decoding;
use crate::wire::prim::Wire;

verus! {

/// How deep elements may nest in a tree that a decoder accepts.
pub const MAX_DEPTH: u32 = 10_000;

impl Wire for VTextNode {
    /// The fields in the order of their declaration.
    open spec fn encoding(v: VTextNodeView) -> Seq<u8> {
        u32::encoding(v.id)
            + String::encoding(v.content)
    }

    open spec fn decoding(s: Seq<u8>, pos: int) -> Decoding<VTextNodeView> {
        match u32::decoding(s, pos) {
            Ok((id, at1)) => match String::decoding(s, at1) {
                Ok((content, end)) => Ok((VTextNodeView { id, content }, end)),
                Err(e) => Err(e),
            },
            Err(e) => Err(e),
        }
    }

    open spec fn wf(v: VTextNodeView) -> bool {
        String::wf(v.content)
    }

    fn encode(&self, out: &mut Vec<u8>) {
        self.id.encode(out);
        self.content.encode(out);
        assert(out@ =~= old(out)@ + Self::encoding(self.deep_view()));
    }

    fn decode(input: &[u8], pos: usize) -> (r: Decoded<VTextNode>) {
        let (id, at1) = u32::decode(input, pos)?;
        let (content, end) = String::decode(input, at1)?;
        Ok((VTextNode { id, content }, end))
    }

    proof fn lemma_roundtrip(v: VTextNodeView, s: Seq<u8>, pos: int) {
        let e_id = u32::encoding(v.id);
        let e_content = String::encoding(v.content);
        lemma_holds_at_concat(s, pos, e_id, e_content);
        let at1 = pos + e_id.len();
        u32::lemma_roundtrip(v.id, s, pos);
        String::lemma_roundtrip(v.content, s, at1);
    }
}

impl Wire for VCDATASection {
    /// The fields in the order of their declaration.
    open spec fn encoding(v: VCDATASectionView) -> Seq<u8> {
        u32::encoding(v.id)
            + String::encoding(v.content)
    }

    open spec fn decoding(s: Seq<u8>, pos: int) -> Decoding<VCDATASectionView> {
        match u32::decoding(s, pos) {
            Ok((id, at1)) => match String::decoding(s, at1) {
                Ok((content, end)) => Ok((VCDATASectionView { id, content }, end)),
                Err(e) => Err(e),
            },
            Err(e) => Err(e),
        }
    }

    open spec fn wf(v: VCDATASectionView) -> bool {
        String::wf(v.content)
    }

    fn encode(&self, out: &mut Vec<u8>) {
        self.id.encode(out);
        self.content.encode(out);
        assert(out@ =~= old(out)@ + Self::encoding(self.deep_view()));
    }

    fn decode(input: &[u8], pos: usize) -> (r: Decoded<VCDATASection>) {
        let (id, at1) = u32::decode(input, pos)?;
        let (content, end) = String::decode(input, at1)?;
        Ok((VCDATASection { id, content }, end))
    }

    proof fn lemma_roundtrip(v: VCDATASectionView, s: Seq<u8>, pos: int) {
        let e_id = u32::encoding(v.id);
        let e_content = String::encoding(v.content);
        lemma_holds_at_concat(s, pos, e_id, e_content);
        let at1 = pos + e_id.len();
        u32::lemma_roundtrip(v.id, s, pos);
        String::lemma_roundtrip(v.content, s, at1);
    }
}

impl Wire for VComment {
    /// The fields in the order of their declaration.
    open spec fn encoding(v: VCommentView) -> Seq<u8> {
        u32::encoding(v.id)
            + String::encoding(v.content)
    }

    open spec fn decoding(s: Seq<u8>, pos: int) -> Decoding<VCommentView> {
        match u32::decoding(s, pos) {
            Ok((id, at1)) => match String::decoding(s, at1) {
                Ok((content, end)) => Ok((VCommentView { id, content }, end)),
                Err(e) => Err(e),
            },
            Err(e) => Err(e),
        }
    }

    open spec fn wf(v: VCommentView) -> bool {
        String::wf(v.content)
    }

    fn encode(&self, out: &mut Vec<u8>) {
        self.id.encode(out);
        self.content.encode(out);
        assert(out@ =~= old(out)@ + Self::encoding(self.deep_view()));
    }

    fn decode(input: &[u8], pos: usize) -> (r: Decoded<VComment>) {
        let (id, at1) = u32::decode(input, pos)?;
        let (content, end) = String::decode(input, at1)?;
        Ok((VComment { id, content }, end))
    }

    proof fn lemma_roundtrip(v: VCommentView, s: Seq<u8>, pos: int) {
        let e_id = u32::encoding(v.id);
        let e_content = String::encoding(v.content);
        lemma_holds_at_concat(s, pos, e_id, e_content);
        let at1 = pos + e_id.len();
        u32::lemma_roundtrip(v.id, s, pos);
        String::lemma_roundtrip(v.content, s, at1);
    }
}

impl Wire for VDocumentType {
    /// The fields in the order of their declaration.
    open spec fn encoding(v: VDocumentTypeView) -> Seq<u8> {
        u32::encoding(v.id)
            + String::encoding(v.name)
            + Option::<String>::encoding(v.public_id)
            + Option::<String>::encoding(v.system_id)
    }

    open spec fn decoding(s: Seq<u8>, pos: int) -> Decoding<VDocumentTypeView> {
        match u32::decoding(s, pos) {
            Ok((id, at1)) => match String::decoding(s, at1) {
                Ok((name, at2)) => match Option::<String>::decoding(s, at2) {
                    Ok((public_id, at3)) => match Option::<String>::decoding(s, at3) {
                        Ok((system_id, end)) => Ok(
                            (VDocumentTypeView { id, name, public_id, system_id }, end),
                        ),
                        Err(e) => Err(e),
                    },
                    Err(e) => Err(e),
                },
                Err(e) => Err(e),
            },
            Err(e) => Err(e),
        }
    }

    open spec fn wf(v: VDocumentTypeView) -> bool {
        &&& String::wf(v.name)
        &&& Option::<String>::wf(v.public_id)
        &&& Option::<String>::wf(v.system_id)
    }

    fn encode(&self, out: &mut Vec<u8>) {
        self.id.encode(out);
        self.name.encode(out);
        self.public_id.encode(out);
        self.system_id.encode(out);
        assert(out@ =~= old(out)@ + Self::encoding(self.deep_view()));
    }

    fn decode(input: &[u8], pos: usize) -> (r: Decoded<VDocumentType>) {
        let (id, at1) = u32::decode(input, pos)?;
        let (name, at2) = String::decode(input, at1)?;
        let (public_id, at3) = Option::<String>::decode(input, at2)?;
        let (system_id, end) = Option::<String>::decode(input, at3)?;
        Ok((VDocumentType { id, name, public_id, system_id }, end))
    }

    proof fn lemma_roundtrip(v: VDocumentTypeView, s: Seq<u8>, pos: int) {
        let e_id = u32::encoding(v.id);
        let e_name = String::encoding(v.name);
        let e_public_id = Option::<String>::encoding(v.public_id);
        let e_system_id = Option::<String>::encoding(v.system_id);
        lemma_holds_at_concat(s, pos, e_id + e_name + e_public_id, e_system_id);
        lemma_holds_at_concat(s, pos, e_id + e_name, e_public_id);
        lemma_holds_at_concat(s, pos, e_id, e_name);
        let at1 = pos + e_id.len();
        let at2 = at1 + e_name.len();
        let at3 = at2 + e_public_id.len();
        u32::lemma_roundtrip(v.id, s, pos);
        String::lemma_roundtrip(v.name, s, at1);
        Option::<String>::lemma_roundtrip(v.public_id, s, at2);
        Option::<String>::lemma_roundtrip(v.system_id, s, at3);
    }
}

impl Wire for VProcessingInstruction {
    /// The fields in the order of their declaration.
    open spec fn encoding(v: VProcessingInstructionView) -> Seq<u8> {
        u32::encoding(v.id)
            + String::encoding(v.target)
            + String::encoding(v.data)
    }

    open spec fn decoding(s: Seq<u8>, pos: int) -> Decoding<VProcessingInstructionView> {
        match u32::decoding(s, pos) {
            Ok((id, at1)) => match String::decoding(s, at1) {
                Ok((target, at2)) => match String::decoding(s, at2) {
                    Ok((data, end)) => Ok((VProcessingInstructionView { id, target, data }, end)),
                    Err(e) => Err(e),
                },
                Err(e) => Err(e),
            },
            Err(e) => Err(e),
        }
    }

    open spec fn wf(v: VProcessingInstructionView) -> bool {
        &&& String::wf(v.target)
        &&& String::wf(v.data)
    }

    fn encode(&self, out: &mut Vec<u8>) {
        self.id.encode(out);
        self.target.encode(out);
        self.data.encode(out);
        assert(out@ =~= old(out)@ + Self::encoding(self.deep_view()));
    }

    fn decode(input: &[u8], pos: usize) -> (r: Decoded<VProcessingInstruction>) {
        let (id, at1) = u32::decode(input, pos)?;
        let (target, at2) = String::decode(input, at1)?;
        let (data, end) = String::decode(input, at2)?;
        Ok((VProcessingInstruction { id, target, data }, end))
    }

    proof fn lemma_roundtrip(v: VProcessingInstructionView, s: Seq<u8>, pos: int) {
        let e_id = u32::encoding(v.id);
        let e_target = String::encoding(v.target);
        let e_data = String::encoding(v.data);
        lemma_holds_at_concat(s, pos, e_id + e_target, e_data);
        lemma_holds_at_concat(s, pos, e_id, e_target);
        let at1 = pos + e_id.len();
        let at2 = at1 + e_target.len();
        u32::lemma_roundtrip(v.id, s, pos);
        String::lemma_roundtrip(v.target, s, at1);
        String::lemma_roundtrip(v.data, s, at2);
    }
}

impl Wire for VStyleSheet {
    /// The fields in the order of their declaration.
    open spec fn encoding(v: VStyleSheetView) -> Seq<u8> {
        u32::encoding(v.id)
            + String::encoding(v.text)
            + Option::<String>::encoding(v.media)
    }

    open spec fn decoding(s: Seq<u8>, pos: int) -> Decoding<VStyleSheetView> {
        match u32::decoding(s, pos) {
            Ok((id, at1)) => match String::decoding(s, at1) {
                Ok((text, at2)) => match Option::<String>::decoding(s, at2) {
                    Ok((media, end)) => Ok((VStyleSheetView { id, text, media }, end)),
                    Err(e) => Err(e),
                },
                Err(e) => Err(e),
            },
            Err(e) => Err(e),
        }
    }

    open spec fn wf(v: VStyleSheetView) -> bool {
        &&& String::wf(v.text)
        &&& Option::<String>::wf(v.media)
    }

    fn encode(&self, out: &mut Vec<u8>) {
        self.id.encode(out);
        self.text.encode(out);
        self.media.encode(out);
        assert(out@ =~= old(out)@ + Self::encoding(self.deep_view()));
    }

    fn decode(input: &[u8], pos: usize) -> (r: Decoded<VStyleSheet>) {
        let (id, at1) = u32::decode(input, pos)?;
        let (text, at2) = String::decode(input, at1)?;
        let (media, end) = Option::<String>::decode(input, at2)?;
        Ok((VStyleSheet { id, text, media }, end))
    }

    proof fn lemma_roundtrip(v: VStyleSheetView, s: Seq<u8>, pos: int) {
        let e_id = u32::encoding(v.id);
        let e_text = String::encoding(v.text);
        let e_media = Option::<String>::encoding(v.media);
        lemma_holds_at_concat(s, pos, e_id + e_text, e_media);
        lemma_holds_at_concat(s, pos, e_id, e_text);
        let at1 = pos + e_id.len();
        let at2 = at1 + e_text.len();
        u32::lemma_roundtrip(v.id, s, pos);
        String::lemma_roundtrip(v.text, s, at1);
        Option::<String>::lemma_roundtrip(v.media, s, at2);
    }
}

/// The bytes that stand for a node: the tag of its variant in four bytes,
/// then what the variant holds.
pub open spec fn node_encoding(v: VNodeView) -> Seq<u8>
    decreases v,
{
    match v {
        VNodeView::Element(e) => be32(0) + element_encoding(e),
        VNodeView::Text(t) => be32(1) + VTextNode::encoding(t),
        VNodeView::CData(c) => be32(2) + VCDATASection::encoding(c),
        VNodeView::Comment(c) => be32(3) + VComment::encoding(c),
        VNodeView::DocType(d) => be32(4) + VDocumentType::encoding(d),
        VNodeView::ProcessingInstruction(p) => be32(5) + VProcessingInstruction::encoding(p),
    }
}

/// The bytes that stand for an element: its fields in the order of their
/// declaration, the children as their number in eight bytes and then one
/// node behind the other.
pub open spec fn element_encoding(e: VElementView) -> Seq<u8>
    decreases e,
{
    u32::encoding(e.id) + String::encoding(e.tag) + Option::<String>::encoding(e.ns) + Vec::<
        (String, String),
    >::encoding(e.attrs) + be64(e.children.len() as u64) + nodes_encoding(e.children)
}

/// The encodings of a run of nodes, one behind the other.
pub open spec fn nodes_encoding(vs: Seq<VNodeView>) -> Seq<u8>
    decreases vs,
{
    if vs.len() == 0 {
        Seq::empty()
    } else {
        node_encoding(vs[0]) + nodes_encoding(vs.drop_first())
    }
}

/// The node that the format reads from `s` at `pos` where elements may nest
/// `depth` deep.
pub open spec fn node_decoding(s: Seq<u8>, pos: int, depth: nat) -> Decoding<VNodeView>
    decreases depth, 0nat, 0nat,
{
    match u32::decoding(s, pos) {
        Ok((tag, start)) => if tag == 0 {
            if depth == 0 {
                Err(DecodeError::DepthExceeded)
            } else {
                match element_decoding(s, start, (depth - 1) as nat) {
                    Ok((e, end)) => Ok((VNodeView::Element(e), end)),
                    Err(e) => Err(e),
                }
            }
        } else if tag == 1 {
            match VTextNode::decoding(s, start) {
                Ok((t, end)) => Ok((VNodeView::Text(t), end)),
                Err(e) => Err(e),
            }
        } else if tag == 2 {
            match VCDATASection::decoding(s, start) {
                Ok((c, end)) => Ok((VNodeView::CData(c), end)),
                Err(e) => Err(e),
            }
        } else if tag == 3 {
            match VComment::decoding(s, start) {
                Ok((c, end)) => Ok((VNodeView::Comment(c), end)),
                Err(e) => Err(e),
            }
        } else if tag == 4 {
            match VDocumentType::decoding(s, start) {
                Ok((d, end)) => Ok((VNodeView::DocType(d), end)),
                Err(e) => Err(e),
            }
        } else if tag == 5 {
            match VProcessingInstruction::decoding(s, start) {
                Ok((p, end)) => Ok((VNodeView::ProcessingInstruction(p), end)),
                Err(e) => Err(e),
            }
        } else {
            Err(DecodeError::UnknownTag)
        },
        Err(e) => Err(e),
    }
}

/// The element that the format reads from `s` at `pos` where the elements
/// under it may nest `depth` deep.
pub open spec fn element_decoding(s: Seq<u8>, pos: int, depth: nat) -> Decoding<VElementView>
    decreases depth, 2nat, 0nat,
{
    match u32::decoding(s, pos) {
        Ok((id, at1)) => match String::decoding(s, at1) {
            Ok((tag, at2)) => match Option::<String>::decoding(s, at2) {
                Ok((ns, at3)) => match Vec::<(String, String)>::decoding(s, at3) {
                    Ok((attrs, at4)) => match u64::decoding(s, at4) {
                        Ok((count, at5)) => match nodes_decoding(s, at5, count as nat, depth) {
                            Ok((children, end)) => Ok(
                                (VElementView { id, tag, ns, attrs, children }, end),
                            ),
                            Err(e) => Err(e),
                        },
                        Err(e) => Err(e),
                    },
                    Err(e) => Err(e),
                },
                Err(e) => Err(e),
            },
            Err(e) => Err(e),
        },
        Err(e) => Err(e),
    }
}

/// The `n` nodes that the format reads from `s` at `pos`, one behind the
/// other, where elements may nest `depth` deep.
pub open spec fn nodes_decoding(s: Seq<u8>, pos: int, n: nat, depth: nat) -> Decoding<
    Seq<VNodeView>,
>
    decreases depth, 1nat, n,
{
    if n == 0 {
        Ok((Seq::empty(), pos))
    } else {
        match node_decoding(s, pos, depth) {
            Ok((first, mid)) => after(first, nodes_decoding(s, mid, (n - 1) as nat, depth)),
            Err(e) => Err(e),
        }
    }
}

/// Every length inside the node fits the width of its prefix, and elements
/// nest at most `depth` deep.
pub open spec fn node_wf(v: VNodeView, depth: nat) -> bool
    decreases v,
{
    match v {
        VNodeView::Element(e) => depth > 0 && element_wf(e, (depth - 1) as nat),
        VNodeView::Text(t) => VTextNode::wf(t),
        VNodeView::CData(c) => VCDATASection::wf(c),
        VNodeView::Comment(c) => VComment::wf(c),
        VNodeView::DocType(d) => VDocumentType::wf(d),
        VNodeView::ProcessingInstruction(p) => VProcessingInstruction::wf(p),
    }
}

/// Every length inside the element fits the width of its prefix, and the
/// elements under it nest at most `depth` deep.
pub open spec fn element_wf(e: VElementView, depth: nat) -> bool
    decreases e,
{
    &&& String::wf(e.tag)
    &&& Option::<String>::wf(e.ns)
    &&& Vec::<(String, String)>::wf(e.attrs)
    &&& e.children.len() <= u64::MAX
    &&& forall|i: int| 0 <= i < e.children.len() ==> node_wf(#[trigger] e.children[i], depth)
}

/// Decoding a node reads back what encoding wrote.
pub proof fn lemma_node_roundtrip(v: VNodeView, depth: nat, s: Seq<u8>, pos: int)
    requires
        node_wf(v, depth),
        holds_at(s, pos, node_encoding(v)),
    ensures
        node_decoding(s, pos, depth) == Ok::<(VNodeView, int), DecodeError>(
            (v, pos + node_encoding(v).len()),
        ),
    decreases v,
{
    match v {
        VNodeView::Element(e) => {
            lemma_holds_at_concat(s, pos, be32(0), element_encoding(e));
            u32::lemma_roundtrip(0, s, pos);
            lemma_element_roundtrip(e, (depth - 1) as nat, s, pos + 4);
        },
        VNodeView::Text(t) => {
            lemma_tagged_roundtrip::<VTextNode>(1, t, s, pos);
        },
        VNodeView::CData(c) => {
            lemma_tagged_roundtrip::<VCDATASection>(2, c, s, pos);
        },
        VNodeView::Comment(c) => {
            lemma_tagged_roundtrip::<VComment>(3, c, s, pos);
        },
        VNodeView::DocType(d) => {
            lemma_tagged_roundtrip::<VDocumentType>(4, d, s, pos);
        },
        VNodeView::ProcessingInstruction(p) => {
            lemma_tagged_roundtrip::<VProcessingInstruction>(5, p, s, pos);
        },
    }
}

/// Decoding an element reads back what encoding wrote.
pub proof fn lemma_element_roundtrip(e: VElementView, depth: nat, s: Seq<u8>, pos: int)
    requires
        element_wf(e, depth),
        holds_at(s, pos, element_encoding(e)),
    ensures
        element_decoding(s, pos, depth) == Ok::<(VElementView, int), DecodeError>(
            (e, pos + element_encoding(e).len()),
        ),
    decreases e,
{
    let e_id = u32::encoding(e.id);
    let e_tag = String::encoding(e.tag);
    let e_ns = Option::<String>::encoding(e.ns);
    let e_attrs = Vec::<(String, String)>::encoding(e.attrs);
    let e_count = be64(e.children.len() as u64);
    let e_children = nodes_encoding(e.children);
    lemma_holds_at_concat(s, pos, e_id + e_tag + e_ns + e_attrs + e_count, e_children);
    lemma_holds_at_concat(s, pos, e_id + e_tag + e_ns + e_attrs, e_count);
    lemma_holds_at_concat(s, pos, e_id + e_tag + e_ns, e_attrs);
    lemma_holds_at_concat(s, pos, e_id + e_tag, e_ns);
    lemma_holds_at_concat(s, pos, e_id, e_tag);
    let at1 = pos + e_id.len();
    let at2 = at1 + e_tag.len();
    let at3 = at2 + e_ns.len();
    let at4 = at3 + e_attrs.len();
    let at5 = at4 + e_count.len();
    u32::lemma_roundtrip(e.id, s, pos);
    String::lemma_roundtrip(e.tag, s, at1);
    Option::<String>::lemma_roundtrip(e.ns, s, at2);
    Vec::<(String, String)>::lemma_roundtrip(e.attrs, s, at3);
    u64::lemma_roundtrip(e.children.len() as u64, s, at4);
    lemma_nodes_roundtrip(e.children, depth, s, at5);
}

/// Decoding as many nodes as were encoded reads them back.
pub proof fn lemma_nodes_roundtrip(vs: Seq<VNodeView>, depth: nat, s: Seq<u8>, pos: int)
    requires
        forall|i: int| 0 <= i < vs.len() ==> node_wf(#[trigger] vs[i], depth),
        holds_at(s, pos, nodes_encoding(vs)),
    ensures
        nodes_decoding(s, pos, vs.len(), depth) == Ok::<(Seq<VNodeView>, int), DecodeError>(
            (vs, pos + nodes_encoding(vs).len()),
        ),
    decreases vs,
{
    if vs.len() == 0 {
        assert(vs =~= Seq::empty());
    } else {
        let rest = vs.drop_first();
        lemma_holds_at_concat(s, pos, node_encoding(vs[0]), nodes_encoding(rest));
        lemma_node_roundtrip(vs[0], depth, s, pos);
        assert forall|i: int| 0 <= i < rest.len() implies node_wf(#[trigger] rest[i], depth) by {
            assert(rest[i] == vs[i + 1]);
        }
        lemma_nodes_roundtrip(rest, depth, s, pos + node_encoding(vs[0]).len());
        assert(seq![vs[0]] + rest =~= vs);
    }
}

/// Appends the encoding of a node to `out`.
pub fn encode_node(node: &VNode, out: &mut Vec<u8>)
    ensures
        final(out)@ == old(out)@ + node_encoding(node@),
    decreases node, 0nat,
{
    match node {
        VNode::Element(e) => {
            0u32.encode(out);
            encode_element(e, out);
        },
        VNode::Text(t) => {
            1u32.encode(out);
            t.encode(out);
        },
        VNode::CData(c) => {
            2u32.encode(out);
            c.encode(out);
        },
        VNode::Comment(c) => {
            3u32.encode(out);
            c.encode(out);
        },
        VNode::DocType(d) => {
            4u32.encode(out);
            d.encode(out);
        },
        VNode::ProcessingInstruction(p) => {
            5u32.encode(out);
            p.encode(out);
        },
    }
    assert(out@ =~= old(out)@ + node_encoding(node@));
}

/// Appends the encoding of an element to `out`.
pub fn encode_element(element: &VElement, out: &mut Vec<u8>)
    ensures
        final(out)@ == old(out)@ + element_encoding(element@),
    decreases element, 1nat,
{
    element.id.encode(out);
    element.tag.encode(out);
    element.ns.encode(out);
    element.attrs.encode(out);
    let n: usize = element.children.len();
    (n as u64).encode(out);
    encode_nodes(&element.children, out);
    assert(out@ =~= old(out)@ + element_encoding(element@));
}

/// Appends the encodings of the nodes to `out`, one behind the other.
pub fn encode_nodes(nodes: &Vec<VNode>, out: &mut Vec<u8>)
    ensures
        final(out)@ == old(out)@ + nodes_encoding(nodes_view(nodes@)),
    decreases nodes, 0nat,
{
    let ghost views = nodes_view(nodes@);
    let ghost whole = old(out)@ + nodes_encoding(views);
    assert(views.skip(0) =~= views);
    let mut i: usize = 0;
    while i < nodes.len()
        invariant
            i <= nodes.len(),
            views == nodes_view(nodes@),
            out@ + nodes_encoding(views.skip(i as int)) == whole,
        decreases nodes.len() - i,
    {
        let ghost before = out@;
        encode_node(&nodes[i], out);
        proof {
            let tail = views.skip(i as int);
            assert(tail[0] == node_view(nodes@[i as int]));
            assert(tail.drop_first() =~= views.skip(i + 1));
            assert(out@ + nodes_encoding(views.skip(i + 1)) =~= before + nodes_encoding(tail));
        }
        i += 1;
    }
    assert(out@ =~= whole);
}

/// Reads a node from `input` at `pos`, following elements `depth` deep.
pub fn decode_node(input: &[u8], pos: usize, depth: u32) -> (r: Decoded<VNode>)
    ensures
        match r {
            Ok((node, end)) => node_decoding(input@, pos as int, depth as nat) == Ok::<
                (VNodeView, int),
                DecodeError,
            >((node@, end as int)),
            Err(e) => node_decoding(input@, pos as int, depth as nat) == Err::<
                (VNodeView, int),
                DecodeError,
            >(e),
        },
    decreases depth, 0nat,
{
    let (tag, start) = u32::decode(input, pos)?;
    if tag == 0 {
        if depth == 0 {
            return Err(DecodeError::DepthExceeded);
        }
        let (e, end) = decode_element(input, start, depth - 1)?;
        Ok((VNode::Element(e), end))
    } else if tag == 1 {
        let (t, end) = VTextNode::decode(input, start)?;
        Ok((VNode::Text(t), end))
    } else if tag == 2 {
        let (c, end) = VCDATASection::decode(input, start)?;
        Ok((VNode::CData(c), end))
    } else if tag == 3 {
        let (c, end) = VComment::decode(input, start)?;
        Ok((VNode::Comment(c), end))
    } else if tag == 4 {
        let (d, end) = VDocumentType::decode(input, start)?;
        Ok((VNode::DocType(d), end))
    } else if tag == 5 {
        let (p, end) = VProcessingInstruction::decode(input, start)?;
        Ok((VNode::ProcessingInstruction(p), end))
    } else {
        Err(DecodeError::UnknownTag)
    }
}

/// Reads an element from `input` at `pos`, following the elements under it
/// `depth` deep.
pub fn decode_element(input: &[u8], pos: usize, depth: u32) -> (r: Decoded<VElement>)
    ensures
        match r {
            Ok((element, end)) => element_decoding(input@, pos as int, depth as nat) == Ok::<
                (VElementView, int),
                DecodeError,
            >((element@, end as int)),
            Err(e) => element_decoding(input@, pos as int, depth as nat) == Err::<
                (VElementView, int),
                DecodeError,
            >(e),
        },
    decreases depth, 2nat,
{
    let (id, at1) = u32::decode(input, pos)?;
    let (tag, at2) = String::decode(input, at1)?;
    let (ns, at3) = Option::<String>::decode(input, at2)?;
    let (attrs, at4) = Vec::<(String, String)>::decode(input, at3)?;
    let (count, at5) = u64::decode(input, at4)?;
    let (children, end) = decode_nodes(input, at5, count, depth)?;
    Ok((VElement { id, tag, ns, attrs, children }, end))
}

/// Reads `count` nodes from `input` at `pos`, one behind the other,
/// following elements `depth` deep.
pub fn decode_nodes(input: &[u8], pos: usize, count: u64, depth: u32) -> (r: Decoded<Vec<VNode>>)
    ensures
        match r {
            Ok((nodes, end)) => nodes_decoding(input@, pos as int, count as nat, depth as nat)
                == Ok::<(Seq<VNodeView>, int), DecodeError>((nodes_view(nodes@), end as int)),
            Err(e) => nodes_decoding(input@, pos as int, count as nat, depth as nat) == Err::<
                (Seq<VNodeView>, int),
                DecodeError,
            >(e),
        },
    decreases depth, 1nat,
{
    let mut nodes: Vec<VNode> = Vec::new();
    let mut cur: usize = pos;
    let mut i: u64 = 0;
    assert(nodes_view(nodes@) =~= Seq::empty());
    while i < count
        invariant
            i <= count,
            nodes_decoding(input@, pos as int, count as nat, depth as nat) == after_all(
                nodes_view(nodes@),
                nodes_decoding(input@, cur as int, (count - i) as nat, depth as nat),
            ),
        decreases count - i,
    {
        let ghost done = nodes_view(nodes@);
        match decode_node(input, cur, depth) {
            Ok((node, next)) => {
                nodes.push(node);
                proof {
                    assert(nodes_view(nodes@) =~= done.push(node@));
                    let rest = nodes_decoding(
                        input@,
                        next as int,
                        (count - i - 1) as nat,
                        depth as nat,
                    );
                    if let Ok((more, end)) = rest {
                        assert(done + (seq![node@] + more) =~= nodes_view(nodes@) + more);
                    }
                }
                cur = next;
            },
            Err(e) => {
                return Err(e);
            },
        }
        i += 1;
    }
    proof {
        assert(nodes_view(nodes@) + Seq::empty() =~= nodes_view(nodes@));
    }
    Ok((nodes, cur))
}

impl Wire for VNode {
    open spec fn encoding(v: VNodeView) -> Seq<u8> {
        node_encoding(v)
    }

    /// Elements are followed `MAX_DEPTH` deep.
    open spec fn decoding(s: Seq<u8>, pos: int) -> Decoding<VNodeView> {
        node_decoding(s, pos, MAX_DEPTH as nat)
    }

    open spec fn wf(v: VNodeView) -> bool {
        node_wf(v, MAX_DEPTH as nat)
    }

    fn encode(&self, out: &mut Vec<u8>) {
        encode_node(self, out);
    }

    fn decode(input: &[u8], pos: usize) -> (r: Decoded<VNode>) {
        decode_node(input, pos, MAX_DEPTH)
    }

    proof fn lemma_roundtrip(v: VNodeView, s: Seq<u8>, pos: int) {
        lemma_node_roundtrip(v, MAX_DEPTH as nat, s, pos);
    }
}

impl Wire for VDocument {
    /// The fields in the order of their declaration.
    open spec fn encoding(v: VDocumentView) -> Seq<u8> {
        u32::encoding(v.id)
            + Vec::<VStyleSheet>::encoding(v.adopted_style_sheets)
            + Vec::<VNode>::encoding(v.children)
    }

    open spec fn decoding(s: Seq<u8>, pos: int) -> Decoding<VDocumentView> {
        match u32::decoding(s, pos) {
            Ok((id, at1)) => match Vec::<VStyleSheet>::decoding(s, at1) {
                Ok((adopted_style_sheets, at2)) => match Vec::<VNode>::decoding(s, at2) {
                    Ok((children, end)) => Ok(
                        (VDocumentView { id, adopted_style_sheets, children }, end),
                    ),
                    Err(e) => Err(e),
                },
                Err(e) => Err(e),
            },
            Err(e) => Err(e),
        }
    }

    open spec fn wf(v: VDocumentView) -> bool {
        &&& Vec::<VStyleSheet>::wf(v.adopted_style_sheets)
        &&& Vec::<VNode>::wf(v.children)
    }

    fn encode(&self, out: &mut Vec<u8>) {
        self.id.encode(out);
        self.adopted_style_sheets.encode(out);
        self.children.encode(out);
        assert(out@ =~= old(out)@ + Self::encoding(self.deep_view()));
    }

    fn decode(input: &[u8], pos: usize) -> (r: Decoded<VDocument>) {
        let (id, at1) = u32::decode(input, pos)?;
        let (adopted_style_sheets, at2) = Vec::<VStyleSheet>::decode(input, at1)?;
        let (children, end) = Vec::<VNode>::decode(input, at2)?;
        Ok((VDocument { id, adopted_style_sheets, children }, end))
    }

    proof fn lemma_roundtrip(v: VDocumentView, s: Seq<u8>, pos: int) {
        let e_id = u32::encoding(v.id);
        let e_adopted_style_sheets = Vec::<VStyleSheet>::encoding(v.adopted_style_sheets);
        let e_children = Vec::<VNode>::encoding(v.children);
        lemma_holds_at_concat(s, pos, e_id + e_adopted_style_sheets, e_children);
        lemma_holds_at_concat(s, pos, e_id, e_adopted_style_sheets);
        let at1 = pos + e_id.len();
        let at2 = at1 + e_adopted_style_sheets.len();
        u32::lemma_roundtrip(v.id, s, pos);
        Vec::<VStyleSheet>::lemma_roundtrip(v.adopted_style_sheets, s, at1);
        Vec::<VNode>::lemma_roundtrip(v.children, s, at2);
    }
}

} // verus!
