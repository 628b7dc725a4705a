//! The recorded form of a DOM tree.

use vstd::prelude::*;

verus! {

/// An element with its attributes and its children, in document order.
#[derive(Debug, PartialEq, Eq)]
pub struct VElement {
    pub id: u32,
    pub tag: String,
    pub ns: Option<String>,
    pub attrs: Vec<(String, String)>,
    pub children: Vec<VNode>,
}

/// A text node.
#[derive(Debug, Clone, PartialEq, Eq)]
pub struct VTextNode {
    pub id: u32,
    pub content: String,
}

/// The value that a [`VTextNode`] stands for.
pub struct VTextNodeView {
    pub id: u32,
    pub content: Seq<char>,
}

impl DeepView for VTextNode {
    type V = VTextNodeView;

    open spec fn deep_view(&self) -> VTextNodeView {
        VTextNodeView {
            id: self.id,
            content: self.content@,
        }
    }
}

impl View for VTextNode {
    type V = VTextNodeView;

    open spec fn view(&self) -> VTextNodeView {
        self.deep_view()
    }
}

/// A CDATA section.
#[derive(Debug, Clone, PartialEq, Eq)]
pub struct VCDATASection {
    pub id: u32,
    pub content: String,
}

/// The value that a [`VCDATASection`] stands for.
pub struct VCDATASectionView {
    pub id: u32,
    pub content: Seq<char>,
}

impl DeepView for VCDATASection {
    type V = VCDATASectionView;

    open spec fn deep_view(&self) -> VCDATASectionView {
        VCDATASectionView {
            id: self.id,
            content: self.content@,
        }
    }
}

impl View for VCDATASection {
    type V = VCDATASectionView;

    open spec fn view(&self) -> VCDATASectionView {
        self.deep_view()
    }
}

/// A comment node.
#[derive(Debug, Clone, PartialEq, Eq)]
pub struct VComment {
    pub id: u32,
    pub content: String,
}

/// The value that a [`VComment`] stands for.
pub struct VCommentView {
    pub id: u32,
    pub content: Seq<char>,
}

impl DeepView for VComment {
    type V = VCommentView;

    open spec fn deep_view(&self) -> VCommentView {
        VCommentView {
            id: self.id,
            content: self.content@,
        }
    }
}

impl View for VComment {
    type V = VCommentView;

    open spec fn view(&self) -> VCommentView {
        self.deep_view()
    }
}

/// A document type declaration.
#[derive(Debug, Clone, PartialEq, Eq)]
pub struct VDocumentType {
    pub id: u32,
    pub name: String,
    pub public_id: Option<String>,
    pub system_id: Option<String>,
}

/// The value that a [`VDocumentType`] stands for.
pub struct VDocumentTypeView {
    pub id: u32,
    pub name: Seq<char>,
    pub public_id: Option<Seq<char>>,
    pub system_id: Option<Seq<char>>,
}

impl DeepView for VDocumentType {
    type V = VDocumentTypeView;

    open spec fn deep_view(&self) -> VDocumentTypeView {
        VDocumentTypeView {
            id: self.id,
            name: self.name@,
            public_id: self.public_id.deep_view(),
            system_id: self.system_id.deep_view(),
        }
    }
}

impl View for VDocumentType {
    type V = VDocumentTypeView;

    open spec fn view(&self) -> VDocumentTypeView {
        self.deep_view()
    }
}

/// A processing instruction.
#[derive(Debug, Clone, PartialEq, Eq)]
pub struct VProcessingInstruction {
    pub id: u32,
    pub target: String,
    pub data: String,
}

/// The value that a [`VProcessingInstruction`] stands for.
pub struct VProcessingInstructionView {
    pub id: u32,
    pub target: Seq<char>,
    pub data: Seq<char>,
}

impl DeepView for VProcessingInstruction {
    type V = VProcessingInstructionView;

    open spec fn deep_view(&self) -> VProcessingInstructionView {
        VProcessingInstructionView {
            id: self.id,
            target: self.target@,
            data: self.data@,
        }
    }
}

impl View for VProcessingInstruction {
    type V = VProcessingInstructionView;

    open spec fn view(&self) -> VProcessingInstructionView {
        self.deep_view()
    }
}

/// A node of the tree.
#[derive(Debug, PartialEq, Eq)]
pub enum VNode {
    Element(VElement),
    Text(VTextNode),
    CData(VCDATASection),
    Comment(VComment),
    DocType(VDocumentType),
    ProcessingInstruction(VProcessingInstruction),
}

/// The value that a [`VElement`] stands for.
pub struct VElementView {
    pub id: u32,
    pub tag: Seq<char>,
    pub ns: Option<Seq<char>>,
    pub attrs: Seq<(Seq<char>, Seq<char>)>,
    pub children: Seq<VNodeView>,
}

/// The value that a [`VNode`] stands for.
pub enum VNodeView {
    Element(VElementView),
    Text(VTextNodeView),
    CData(VCDATASectionView),
    Comment(VCommentView),
    DocType(VDocumentTypeView),
    ProcessingInstruction(VProcessingInstructionView),
}

/// The value of a node: that of what its variant holds.
pub open spec fn node_view(node: VNode) -> VNodeView
    decreases node,
{
    match node {
        VNode::Element(e) => VNodeView::Element(element_view(e)),
        VNode::Text(t) => VNodeView::Text(t.deep_view()),
        VNode::CData(c) => VNodeView::CData(c.deep_view()),
        VNode::Comment(c) => VNodeView::Comment(c.deep_view()),
        VNode::DocType(d) => VNodeView::DocType(d.deep_view()),
        VNode::ProcessingInstruction(p) => VNodeView::ProcessingInstruction(p.deep_view()),
    }
}

/// The value of an element: its own fields, and the values of its children.
pub open spec fn element_view(element: VElement) -> VElementView
    decreases element,
{
    VElementView {
        id: element.id,
        tag: element.tag@,
        ns: element.ns.deep_view(),
        attrs: element.attrs.deep_view(),
        children: nodes_view(element.children@),
    }
}

/// The values of a run of nodes, in order.
pub open spec fn nodes_view(nodes: Seq<VNode>) -> Seq<VNodeView>
    decreases nodes,
{
    Seq::new(
        nodes.len(),
        |i: int|
            if 0 <= i < nodes.len() {
                node_view(nodes[i])
            } else {
                arbitrary()
            },
    )
}

impl DeepView for VNode {
    type V = VNodeView;

    open spec fn deep_view(&self) -> VNodeView {
        node_view(*self)
    }
}

impl View for VNode {
    type V = VNodeView;

    open spec fn view(&self) -> VNodeView {
        self.deep_view()
    }
}

impl DeepView for VElement {
    type V = VElementView;

    open spec fn deep_view(&self) -> VElementView {
        element_view(*self)
    }
}

impl View for VElement {
    type V = VElementView;

    open spec fn view(&self) -> VElementView {
        self.deep_view()
    }
}

/// A copy of an optional string.
pub fn clone_optional(text: &Option<String>) -> (copy: Option<String>)
    ensures
        copy.deep_view() == text.deep_view(),
{
    match text {
        Some(t) => Some(t.clone()),
        None => None,
    }
}

/// A copy of a list of attributes.
fn clone_attrs(attrs: &Vec<(String, String)>) -> (copy: Vec<(String, String)>)
    ensures
        copy.deep_view() == attrs.deep_view(),
{
    let mut copy: Vec<(String, String)> = Vec::new();
    let mut i: usize = 0;
    while i < attrs.len()
        invariant
            i <= attrs.len(),
            copy.len() == i,
            forall|k: int| 0 <= k < i ==> copy@[k].deep_view() == attrs@[k].deep_view(),
        decreases attrs.len() - i,
    {
        let name = attrs[i].0.clone();
        let value = attrs[i].1.clone();
        copy.push((name, value));
        i += 1;
    }
    assert(copy.deep_view() =~= attrs.deep_view());
    copy
}

/// A copy of a node with all that hangs under it.
pub fn clone_node(node: &VNode) -> (copy: VNode)
    ensures
        copy@ == node@,
    decreases node, 0nat,
{
    match node {
        VNode::Element(e) => VNode::Element(clone_element(e)),
        VNode::Text(t) => VNode::Text(VTextNode { id: t.id, content: t.content.clone() }),
        VNode::CData(c) => VNode::CData(VCDATASection { id: c.id, content: c.content.clone() }),
        VNode::Comment(c) => VNode::Comment(VComment { id: c.id, content: c.content.clone() }),
        VNode::DocType(d) => VNode::DocType(
            VDocumentType {
                id: d.id,
                name: d.name.clone(),
                public_id: clone_optional(&d.public_id),
                system_id: clone_optional(&d.system_id),
            },
        ),
        VNode::ProcessingInstruction(p) => VNode::ProcessingInstruction(
            VProcessingInstruction { id: p.id, target: p.target.clone(), data: p.data.clone() },
        ),
    }
}

/// A copy of an element with all that hangs under it.
pub fn clone_element(element: &VElement) -> (copy: VElement)
    ensures
        copy@ == element@,
    decreases element, 1nat,
{
    VElement {
        id: element.id,
        tag: element.tag.clone(),
        ns: clone_optional(&element.ns),
        attrs: clone_attrs(&element.attrs),
        children: clone_nodes(&element.children),
    }
}

/// A copy of a list of nodes with all that hangs under them.
pub fn clone_nodes(nodes: &Vec<VNode>) -> (copy: Vec<VNode>)
    ensures
        nodes_view(copy@) == nodes_view(nodes@),
    decreases nodes, 0nat,
{
    let mut copy: Vec<VNode> = Vec::new();
    let mut i: usize = 0;
    while i < nodes.len()
        invariant
            i <= nodes.len(),
            copy.len() == i,
            forall|k: int| 0 <= k < i ==> node_view(copy@[k]) == node_view(nodes@[k]),
        decreases nodes.len() - i,
    {
        let child = clone_node(&nodes[i]);
        copy.push(child);
        i += 1;
    }
    assert(nodes_view(copy@) =~= nodes_view(nodes@));
    copy
}

impl Clone for VNode {
    fn clone(&self) -> (copy: VNode)
        ensures
            copy@ == self@,
    {
        clone_node(self)
    }
}

impl Clone for VElement {
    fn clone(&self) -> (copy: VElement)
        ensures
            copy@ == self@,
    {
        clone_element(self)
    }
}

/// A style sheet with its text and optional media query.
#[derive(Debug, Clone, PartialEq, Eq)]
pub struct VStyleSheet {
    pub id: u32,
    pub text: String,
    pub media: Option<String>,
}

/// The value that a [`VStyleSheet`] stands for.
pub struct VStyleSheetView {
    pub id: u32,
    pub text: Seq<char>,
    pub media: Option<Seq<char>>,
}

impl DeepView for VStyleSheet {
    type V = VStyleSheetView;

    open spec fn deep_view(&self) -> VStyleSheetView {
        VStyleSheetView {
            id: self.id,
            text: self.text@,
            media: self.media.deep_view(),
        }
    }
}

impl View for VStyleSheet {
    type V = VStyleSheetView;

    open spec fn view(&self) -> VStyleSheetView {
        self.deep_view()
    }
}

/// A whole document: its adopted style sheets and its top-level nodes.
#[derive(Debug, Clone, PartialEq, Eq)]
pub struct VDocument {
    pub id: u32,
    pub adopted_style_sheets: Vec<VStyleSheet>,
    pub children: Vec<VNode>,
}

/// The value that a [`VDocument`] stands for.
pub struct VDocumentView {
    pub id: u32,
    pub adopted_style_sheets: Seq<VStyleSheetView>,
    pub children: Seq<VNodeView>,
}

impl DeepView for VDocument {
    type V = VDocumentView;

    open spec fn deep_view(&self) -> VDocumentView {
        VDocumentView {
            id: self.id,
            adopted_style_sheets: self.adopted_style_sheets.deep_view(),
            children: self.children.deep_view(),
        }
    }
}

impl View for VDocument {
    type V = VDocumentView;

    open spec fn view(&self) -> VDocumentView {
        self.deep_view()
    }
}

} // verus!
