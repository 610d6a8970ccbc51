//! The host output of one request, as the ordered list of what the rendering
//! operations append to it. The drawing side turns each entry into a
//! paragraph, a canvas, an image or a block of positioned elements.
use vstd::prelude::*;
use crate::fragment::{FragmentView, RenderString, fragments_view};

verus! {

/// Which caption stands above a rendered surface.
#[derive(Clone, Copy, Debug, PartialEq, Eq, Structural)]
pub enum Caption {
    /// Above a raster surface whose text cannot be copied.
    Canvas,
    /// Above a static image whose text cannot be copied.
    Image,
    /// Above elements whose text can be selected and copied.
    Overlay,
}

/// One entry of the host output.
#[derive(Debug)]
pub enum Node {
    Caption(Caption),
    /// A raster surface, addressable by `id`, with every fragment drawn on it.
    Canvas { id: String, width: u32, height: u32, texts: Vec<RenderString> },
    /// A static snapshot of the raster surface addressed by `source`.
    Image { source: String, width: u32, height: u32 },
    /// A sized wrapper holding one positioned, copyable element per fragment.
    Overlay { width: u32, height: u32, items: Vec<RenderString> },
}

/// An entry of the host output as a mathematical value.
pub enum NodeView {
    Caption(Caption),
    Canvas { id: Seq<char>, width: u32, height: u32, texts: Seq<FragmentView> },
    Image { source: Seq<char>, width: u32, height: u32 },
    Overlay { width: u32, height: u32, items: Seq<FragmentView> },
}

impl View for Node {
    type V = NodeView;

    open spec fn view(&self) -> NodeView {
        match self {
            Node::Caption(c) => NodeView::Caption(*c),
            Node::Canvas { id, width, height, texts } => NodeView::Canvas {
                id: id@,
                width: *width,
                height: *height,
                texts: fragments_view(texts@),
            },
            Node::Image { source, width, height } => NodeView::Image {
                source: source@,
                width: *width,
                height: *height,
            },
            Node::Overlay { width, height, items } => NodeView::Overlay {
                width: *width,
                height: *height,
                items: fragments_view(items@),
            },
        }
    }
}

/// The identifier and the size of the raster surface.
#[derive(Debug)]
pub struct CanvasAttributes {
    pub id: String,
    pub width: u32,
    pub height: u32,
}

impl CanvasAttributes {
    /// The surface that every request draws on: `encrypt-canvas`, 100 by 100.
    pub fn standard() -> (r: CanvasAttributes)
        ensures
            r.id@ == "encrypt-canvas"@,
            r.width == 100,
            r.height == 100,
    {
        CanvasAttributes { id: "encrypt-canvas".to_owned(), width: 100, height: 100 }
    }
}

/// Why a rendering operation failed.
#[derive(Clone, Copy, Debug, PartialEq, Eq, Structural)]
pub enum RenderError {
    /// The derived image was asked for before its raster surface existed.
    MissingSurface,
}

/// What the flattened rendering appends: its caption, then the surface.
pub open spec fn canvas_nodes(id: Seq<char>, width: u32, height: u32, texts: Seq<FragmentView>) -> Seq<NodeView> {
    seq![
        NodeView::Caption(Caption::Canvas),
        NodeView::Canvas { id, width, height, texts },
    ]
}

/// What the derived image appends: its caption, then the image.
pub open spec fn image_nodes(source: Seq<char>, width: u32, height: u32) -> Seq<NodeView> {
    seq![NodeView::Caption(Caption::Image), NodeView::Image { source, width, height }]
}

/// What the editable overlay appends: its caption, then the wrapper.
pub open spec fn overlay_nodes(width: u32, height: u32, items: Seq<FragmentView>) -> Seq<NodeView> {
    seq![NodeView::Caption(Caption::Overlay), NodeView::Overlay { width, height, items }]
}

/// Whether `n` is a raster surface addressed by `id`.
pub open spec fn is_surface(n: NodeView, id: Seq<char>) -> bool {
    n matches NodeView::Canvas { id: cid, .. } && cid == id
}

/// Whether the output holds a raster surface addressed by `id`.
pub open spec fn has_surface(nodes: Seq<NodeView>, id: Seq<char>) -> bool {
    exists|i: int| 0 <= i < nodes.len() && is_surface(#[trigger] nodes[i], id)
}

/// Whether the output holds nothing that can be selected or copied.
pub open spec fn editable_free(nodes: Seq<NodeView>) -> bool {
    forall|i: int| 0 <= i < nodes.len() ==> !(#[trigger] nodes[i] is Overlay)
}

/// Whether every image in the output snapshots a raster surface that stands
/// before it.
pub open spec fn images_follow_surfaces(nodes: Seq<NodeView>) -> bool {
    forall|i: int|
        0 <= i < nodes.len() && (#[trigger] nodes[i] is Image) ==> has_surface(
            nodes.subrange(0, i),
            nodes[i]->source,
        )
}

/// The host output of one request.
pub struct Page {
    nodes: Vec<Node>,
}

impl View for Page {
    type V = Seq<NodeView>;

    closed spec fn view(&self) -> Seq<NodeView> {
        self.nodes@.map_values(|n: Node| n@)
    }
}

impl Page {
    /// An empty output.
    pub fn new() -> (r: Page)
        ensures
            r@ == Seq::<NodeView>::empty(),
    {
        let r = Page { nodes: Vec::new() };
        assert(r@ =~= Seq::<NodeView>::empty());
        r
    }

    /// The entries, in the order they were appended.
    pub fn nodes(&self) -> (r: &Vec<Node>)
        ensures
            r@.map_values(|n: Node| n@) == self@,
    {
        &self.nodes
    }

    pub(crate) fn push(&mut self, n: Node)
        ensures
            final(self)@ == old(self)@.push(n@),
    {
        self.nodes.push(n);
        assert(self@ =~= old(self)@.push(n@));
    }

    /// Whether a raster surface addressed by `id` has been appended.
    pub fn contains_surface(&self, id: &String) -> (r: bool)
        ensures
            r == has_surface(self@, id@),
    {
        let mut i: usize = 0;
        while i < self.nodes.len()
            invariant
                i <= self.nodes@.len(),
                forall|j: int| 0 <= j < i ==> !is_surface(#[trigger] self@[j], id@),
            decreases self.nodes.len() - i,
        {
            assert(self@[i as int] == self.nodes@[i as int]@);
            match &self.nodes[i] {
                Node::Canvas { id: cid, .. } => {
                    if *cid == *id {
                        assert(is_surface(self@[i as int], id@));
                        return true;
                    }
                },
                _ => {},
            }
            i += 1;
        }
        false
    }
}

/// The flattened surface and the derived image append nothing that can be
/// copied: output that held nothing copyable still holds nothing copyable
/// after any number of them.
pub proof fn lemma_baseline_steps_not_editable(
    nodes: Seq<NodeView>,
    id: Seq<char>,
    width: u32,
    height: u32,
    texts: Seq<FragmentView>,
)
    requires
        editable_free(nodes),
    ensures
        editable_free(nodes + canvas_nodes(id, width, height, texts)),
        editable_free(nodes + image_nodes(id, width, height)),
{
    let a = nodes + canvas_nodes(id, width, height, texts);
    let b = nodes + image_nodes(id, width, height);
    assert forall|i: int| 0 <= i < a.len() implies !(#[trigger] a[i] is Overlay) by {
        if i >= nodes.len() {
            assert(a[i] == canvas_nodes(id, width, height, texts)[i - nodes.len()]);
        }
    }
    assert forall|i: int| 0 <= i < b.len() implies !(#[trigger] b[i] is Overlay) by {
        if i >= nodes.len() {
            assert(b[i] == image_nodes(id, width, height)[i - nodes.len()]);
        }
    }
}

/// Every image snapshots a surface drawn before it: the three rendering steps
/// keep this true, the derived image being appended only where its surface
/// exists.
pub proof fn lemma_steps_keep_images_after_surfaces(
    nodes: Seq<NodeView>,
    id: Seq<char>,
    width: u32,
    height: u32,
    texts: Seq<FragmentView>,
)
    requires
        images_follow_surfaces(nodes),
    ensures
        images_follow_surfaces(nodes + canvas_nodes(id, width, height, texts)),
        images_follow_surfaces(nodes + overlay_nodes(width, height, texts)),
        has_surface(nodes, id) ==> images_follow_surfaces(nodes + image_nodes(id, width, height)),
{
    let a = nodes + canvas_nodes(id, width, height, texts);
    assert forall|i: int| 0 <= i < a.len() && (#[trigger] a[i] is Image) implies has_surface(
        a.subrange(0, i),
        a[i]->source,
    ) by {
        assert(i < nodes.len());
        let j = choose|j: int| 0 <= j < i && is_surface(#[trigger] nodes.subrange(0, i)[j], nodes[i]->source);
        assert(a.subrange(0, i)[j] == nodes.subrange(0, i)[j]);
    }
    let c = nodes + overlay_nodes(width, height, texts);
    assert forall|i: int| 0 <= i < c.len() && (#[trigger] c[i] is Image) implies has_surface(
        c.subrange(0, i),
        c[i]->source,
    ) by {
        assert(i < nodes.len());
        let j = choose|j: int| 0 <= j < i && is_surface(#[trigger] nodes.subrange(0, i)[j], nodes[i]->source);
        assert(c.subrange(0, i)[j] == nodes.subrange(0, i)[j]);
    }
    if has_surface(nodes, id) {
        let b = nodes + image_nodes(id, width, height);
        let k = choose|k: int| 0 <= k < nodes.len() && is_surface(#[trigger] nodes[k], id);
        assert forall|i: int| 0 <= i < b.len() && (#[trigger] b[i] is Image) implies has_surface(
            b.subrange(0, i),
            b[i]->source,
        ) by {
            if i < nodes.len() {
                let j = choose|j: int| 0 <= j < i && is_surface(#[trigger] nodes.subrange(0, i)[j], nodes[i]->source);
                assert(b.subrange(0, i)[j] == nodes.subrange(0, i)[j]);
            } else {
                assert(b.subrange(0, i)[k] == nodes[k]);
            }
        }
    }
}

} // verus!
