//! The document tree of a design file, and the traversals the commands
//! run over it: collecting node ids, top-level frames, and components.

use vstd::prelude::*;

verus! {

/// The root of a file's node tree.
#[derive(Debug)]
pub struct Document {
    pub id: String,
    pub name: String,
    pub node_type: String,
    pub children: Option<Vec<Node>>,
}

/// One node of the tree.
#[derive(Debug)]
pub struct Node {
    pub id: String,
    pub name: String,
    pub node_type: String,
    pub children: Option<Vec<Node>>,
}

/// All ids of a subtree, the node itself first.
pub open spec fn subtree_ids(n: Node) -> Seq<Seq<char>>
    decreases n,
{
    seq![n.id@] + (match n.children {
        Some(v) => forest_ids(v@),
        None => Seq::empty(),
    })
}

/// All ids of a list of subtrees, in order.
pub open spec fn forest_ids(l: Seq<Node>) -> Seq<Seq<char>>
    decreases l,
{
    if l.len() == 0 {
        Seq::empty()
    } else {
        subtree_ids(l.first()) + forest_ids(l.drop_first())
    }
}

/// All node ids of a document.
pub open spec fn document_ids(doc: Document) -> Seq<Seq<char>> {
    match doc.children {
        Some(v) => forest_ids(v@),
        None => Seq::empty(),
    }
}

proof fn lemma_forest_ids_push(l: Seq<Node>, x: Node)
    ensures
        forest_ids(l.push(x)) == forest_ids(l) + subtree_ids(x),
    decreases l.len(),
{
    let p = l.push(x);
    if l.len() == 0 {
        assert(p.first() == x);
        assert(p.drop_first() =~= Seq::<Node>::empty());
        assert(forest_ids(Seq::<Node>::empty()) == Seq::<Seq<char>>::empty());
        assert(forest_ids(p) == subtree_ids(x) + Seq::<Seq<char>>::empty());
        assert(subtree_ids(x) + Seq::<Seq<char>>::empty() =~= subtree_ids(x));
        assert(forest_ids(l) == Seq::<Seq<char>>::empty());
        assert(Seq::<Seq<char>>::empty() + subtree_ids(x) =~= subtree_ids(x));
    } else {
        assert(p.first() == l.first());
        assert(p.drop_first() =~= l.drop_first().push(x));
        lemma_forest_ids_push(l.drop_first(), x);
        assert(forest_ids(p) == subtree_ids(l.first()) + (forest_ids(l.drop_first())
            + subtree_ids(x)));
        assert(subtree_ids(l.first()) + (forest_ids(l.drop_first()) + subtree_ids(x)) =~= (
        subtree_ids(l.first()) + forest_ids(l.drop_first())) + subtree_ids(x));
    }
}

/// Append the id of every node under `children`, depth first.
pub fn collect_node_ids(children: &Option<Vec<Node>>, ids: &mut Vec<String>)
    ensures
        final(ids).deep_view() == old(ids).deep_view() + (match children {
            Some(v) => forest_ids(v@),
            None => Seq::empty(),
        }),
    decreases *children,
{
    match children {
        Some(nodes) => {
            let k = nodes.len();
            let mut i: usize = 0;
            proof {
                assert(forest_ids(nodes@.take(0)) =~= Seq::<Seq<char>>::empty());
                assert(ids.deep_view() =~= ids.deep_view() + forest_ids(nodes@.take(0)));
            }
            while i < k
                invariant
                    k == nodes@.len(),
                    0 <= i <= k,
                    children matches Some(nv) && nv@ == nodes@,
                    ids.deep_view() == old(ids).deep_view() + forest_ids(nodes@.take(i as int)),
                decreases k - i,
            {
                let ghost pre = ids.deep_view();
                let ghost nd = nodes@.index(i as int);
                let node = &nodes[i];
                ids.push(node.id.clone());
                proof {
                    assert(ids.deep_view() =~= pre.push(nd.id@));
                }
                let ghost mid = ids.deep_view();
                proof {
                    assert(decreases_to!(*children => (children->Some_0)));
                    assert(decreases_to!((children->Some_0) => (children->Some_0)@));
                    assert(decreases_to!((children->Some_0)@ => (children->Some_0)@[i as int]));
                    assert(decreases_to!((children->Some_0)@[i as int] => (
                    children->Some_0)@[i as int].children));
                }
                collect_node_ids(&node.children, ids);
                proof {
                    let childpart = match nd.children {
                        Some(v) => forest_ids(v@),
                        None => Seq::<Seq<char>>::empty(),
                    };
                    assert(ids.deep_view() == mid + childpart);
                    assert(mid =~= pre + seq![nd.id@]);
                    assert((pre + seq![nd.id@]) + childpart =~= pre + (seq![nd.id@] + childpart));
                    assert(subtree_ids(nd) == seq![nd.id@] + childpart);
                    lemma_forest_ids_push(nodes@.take(i as int), nd);
                    assert(nodes@.take(i + 1) =~= nodes@.take(i as int).push(nd));
                    assert(pre + subtree_ids(nd) =~= (old(ids).deep_view() + forest_ids(
                        nodes@.take(i as int))) + subtree_ids(nd));
                    assert((old(ids).deep_view() + forest_ids(nodes@.take(i as int)))
                        + subtree_ids(nd) =~= old(ids).deep_view() + (forest_ids(nodes@.take(
                        i as int)) + subtree_ids(nd)));
                    assert(ids.deep_view() =~= old(ids).deep_view() + forest_ids(
                        nodes@.take(i + 1)));
                }
                i += 1;
            }
            proof {
                assert(nodes@.take(k as int) =~= nodes@);
            }
        },
        None => {},
    }
}

/// All node ids of a document, depth first.
pub fn extract_all_node_ids(document: &Document) -> (ids: Vec<String>)
    ensures
        ids.deep_view() == document_ids(*document),
{
    let mut ids: Vec<String> = Vec::new();
    collect_node_ids(&document.children, &mut ids);
    proof {
        assert(ids.deep_view() =~= document_ids(*document));
    }
    ids
}

/// A node exported as a top-level frame.
pub open spec fn is_frame(n: Node) -> bool {
    n.node_type@ == "FRAME"@ || n.node_type@ == "COMPONENT"@
}

/// A page of the document.
pub open spec fn is_canvas(n: Node) -> bool {
    n.node_type@ == "CANVAS"@
}

/// Ids and names of the frames of one page, in order.
pub open spec fn page_frames(frames: Seq<Node>) -> Seq<(Seq<char>, Seq<char>)>
    decreases frames.len(),
{
    if frames.len() == 0 {
        Seq::empty()
    } else {
        page_frames(frames.drop_last()) + (if is_frame(frames.last()) {
            seq![(frames.last().id@, frames.last().name@)]
        } else {
            Seq::empty()
        })
    }
}

/// The contribution of one document child: its frames when it is a
/// page, nothing otherwise.
pub open spec fn page_contribution(p: Node) -> Seq<(Seq<char>, Seq<char>)> {
    if is_canvas(p) {
        match p.children {
            Some(f) => page_frames(f@),
            None => Seq::empty(),
        }
    } else {
        Seq::empty()
    }
}

/// Ids and names of all top-level frames of a document.
pub open spec fn frames_of_pages(pages: Seq<Node>) -> Seq<(Seq<char>, Seq<char>)>
    decreases pages.len(),
{
    if pages.len() == 0 {
        Seq::empty()
    } else {
        frames_of_pages(pages.drop_last()) + page_contribution(pages.last())
    }
}

/// Ids and names of all top-level frames of a document.
pub open spec fn document_frames(doc: Document) -> Seq<(Seq<char>, Seq<char>)> {
    match doc.children {
        Some(v) => frames_of_pages(v@),
        None => Seq::empty(),
    }
}

/// Id and name of every top-level frame: the frame and component nodes
/// directly under the document's pages.
pub fn extract_frame_info(document: &Document) -> (frames: Vec<(String, String)>)
    ensures
        frames.deep_view() == document_frames(*document),
{
    let mut out: Vec<(String, String)> = Vec::new();
    match &document.children {
        Some(pages) => {
            let k = pages.len();
            let mut i: usize = 0;
            proof {
                assert(out.deep_view() =~= frames_of_pages(pages@.take(0)));
            }
            while i < k
                invariant
                    k == pages@.len(),
                    0 <= i <= k,
                    out.deep_view() == frames_of_pages(pages@.take(i as int)),
                decreases k - i,
            {
                let page = &pages[i];
                if crate::text::str_eq(page.node_type.as_str(), "CANVAS") {
                    match &page.children {
                        Some(frames) => {
                            let m = frames.len();
                            let mut j: usize = 0;
                            proof {
                                assert(page_frames(frames@.take(0)) =~= Seq::<(
                                    Seq<char>,
                                    Seq<char>,
                                )>::empty());
                            }
                            while j < m
                                invariant
                                    m == frames@.len(),
                                    0 <= j <= m,
                                    k == pages@.len(),
                                    0 <= i < k,
                                    page == &pages@.index(i as int),
                                    is_canvas(pages@.index(i as int)),
                                    page.children matches Some(fr) && fr@ == frames@,
                                    out.deep_view() == frames_of_pages(pages@.take(i as int))
                                        + page_frames(frames@.take(j as int)),
                                decreases m - j,
                            {
                                let ghost pre = out.deep_view();
                                let ghost fr = frames@.index(j as int);
                                let frame = &frames[j];
                                if crate::text::str_eq(frame.node_type.as_str(), "FRAME")
                                    || crate::text::str_eq(frame.node_type.as_str(), "COMPONENT") {
                                    out.push((frame.id.clone(), frame.name.clone()));
                                }
                                proof {
                                    let added_pair = if is_frame(fr) {
                                        seq![(fr.id@, fr.name@)]
                                    } else {
                                        Seq::<(Seq<char>, Seq<char>)>::empty()
                                    };
                                    assert(out.deep_view() =~= pre + added_pair);
                                    assert(frames@.take(j + 1).drop_last() =~= frames@.take(
                                        j as int));
                                    assert(frames@.take(j + 1).last() == fr);
                                    assert(page_frames(frames@.take(j + 1)) == page_frames(
                                        frames@.take(j as int)) + added_pair);
                                    assert((frames_of_pages(pages@.take(i as int)) + page_frames(
                                        frames@.take(j as int))) + added_pair =~= frames_of_pages(
                                        pages@.take(i as int)) + (page_frames(frames@.take(
                                        j as int)) + added_pair));
                                    assert(out.deep_view() =~= frames_of_pages(pages@.take(
                                        i as int)) + page_frames(frames@.take(j + 1)));
                                }
                                j += 1;
                            }
                            proof {
                                assert(frames@.take(m as int) =~= frames@);
                            }
                        },
                        None => {},
                    }
                }
                proof {
                    assert(pages@.take(i + 1).drop_last() =~= pages@.take(i as int));
                    assert(pages@.take(i + 1).last() == pages@.index(i as int));
                    assert(out.deep_view() =~= frames_of_pages(pages@.take(i + 1)));
                }
                i += 1;
            }
            proof {
                assert(pages@.take(k as int) =~= pages@);
            }
        },
        None => {},
    }
    out
}

/// Ids of all top-level frames, for image export.
pub fn extract_frame_ids(document: &Document) -> (ids: Vec<String>)
    ensures
        ids.deep_view().len() == document_frames(*document).len(),
        forall|i: int| 0 <= i < ids.deep_view().len() ==> ids.deep_view().index(i)
            == document_frames(*document).index(i).0,
{
    let frames = extract_frame_info(document);
    let n = frames.len();
    let mut ids: Vec<String> = Vec::new();
    let mut i: usize = 0;
    while i < n
        invariant
            n == frames@.len(),
            frames.deep_view() == document_frames(*document),
            0 <= i <= n,
            ids@.len() == i,
            forall|t: int| 0 <= t < i ==> ids.deep_view().index(t) == document_frames(
                *document).index(t).0,
        decreases n - i,
    {
        let ghost prev = ids@;
        let ghost prevdv = ids.deep_view();
        ids.push(frames[i].0.clone());
        proof {
            assert(ids@ == prev.push(ids@.index(i as int)));
            assert(ids.deep_view().index(i as int) == ids@.index(i as int)@);
            assert(ids@.index(i as int)@ == frames@.index(i as int).0@);
            assert(frames.deep_view().index(i as int) == frames@.index(i as int).deep_view());
            assert(frames@.index(i as int).deep_view().0 == frames@.index(i as int).0@);
            assert forall|t: int| 0 <= t < i + 1 implies ids.deep_view().index(t)
                == document_frames(*document).index(t).0 by {
                assert(ids.deep_view().index(t) == ids@.index(t)@);
                if t < i {
                    assert(ids@.index(t) == prev.index(t));
                    assert(prevdv.index(t) == prev.index(t)@);
                }
            }
        }
        i += 1;
    }
    ids
}

/// The first frame of one page's children.
pub open spec fn first_frame_in(frames: Seq<Node>) -> Option<Seq<char>>
    decreases frames.len(),
{
    if frames.len() == 0 {
        None
    } else if is_frame(frames.first()) {
        Some(frames.first().id@)
    } else {
        first_frame_in(frames.drop_first())
    }
}

/// The first top-level frame of a sequence of pages.
pub open spec fn first_frame_of_pages(pages: Seq<Node>) -> Option<Seq<char>>
    decreases pages.len(),
{
    if pages.len() == 0 {
        None
    } else {
        let head = if is_canvas(pages.first()) {
            match pages.first().children {
                Some(f) => first_frame_in(f@),
                None => None,
            }
        } else {
            None
        };
        match head {
            Some(id) => Some(id),
            None => first_frame_of_pages(pages.drop_first()),
        }
    }
}

/// The first top-level frame of a document.
pub open spec fn document_first_frame(doc: Document) -> Option<Seq<char>> {
    match doc.children {
        Some(v) => first_frame_of_pages(v@),
        None => None,
    }
}

/// The id of the first frame or component directly under a page, in
/// document order.
pub fn find_first_frame(document: &Document) -> (r: Option<String>)
    ensures
        match r {
            Some(id) => document_first_frame(*document) == Some(id@),
            None => document_first_frame(*document) is None,
        },
{
    match &document.children {
        Some(pages) => {
            let k = pages.len();
            let mut i: usize = 0;
            proof {
                assert(pages@.skip(0) =~= pages@);
            }
            while i < k
                invariant
                    k == pages@.len(),
                    0 <= i <= k,
                    document.children matches Some(pv) && pv@ == pages@,
                    first_frame_of_pages(pages@) == first_frame_of_pages(pages@.skip(i as int)),
                decreases k - i,
            {
                proof {
                    let t = pages@.skip(i as int);
                    assert(t.first() == pages@.index(i as int));
                    assert(t.drop_first() =~= pages@.skip(i + 1));
                }
                let page = &pages[i];
                if crate::text::str_eq(page.node_type.as_str(), "CANVAS") {
                    match &page.children {
                        Some(frames) => {
                            let m = frames.len();
                            let mut j: usize = 0;
                            proof {
                                assert(frames@.skip(0) =~= frames@);
                            }
                            while j < m
                                invariant
                                    m == frames@.len(),
                                    0 <= j <= m,
                                    k == pages@.len(),
                                    0 <= i < k,
                                    document.children matches Some(pv) && pv@ == pages@,
                                    is_canvas(pages@.index(i as int)),
                                    pages@.index(i as int).children matches Some(fr) && fr@
                                        == frames@,
                                    first_frame_of_pages(pages@) == first_frame_of_pages(
                                        pages@.skip(i as int)),
                                    first_frame_in(frames@) == first_frame_in(frames@.skip(
                                        j as int)),
                                decreases m - j,
                            {
                                proof {
                                    let t = frames@.skip(j as int);
                                    assert(t.first() == frames@.index(j as int));
                                    assert(t.drop_first() =~= frames@.skip(j + 1));
                                }
                                let frame = &frames[j];
                                if crate::text::str_eq(frame.node_type.as_str(), "FRAME")
                                    || crate::text::str_eq(frame.node_type.as_str(), "COMPONENT") {
                                    return Some(frame.id.clone());
                                }
                                j += 1;
                            }
                            proof {
                                assert(frames@.skip(m as int) =~= Seq::<Node>::empty());
                            }
                        },
                        None => {},
                    }
                }
                i += 1;
            }
            proof {
                assert(pages@.skip(k as int) =~= Seq::<Node>::empty());
            }
            None
        },
        None => None,
    }
}

/// How far along an implementation of a design component is.
#[derive(Debug, Clone, PartialEq, Eq, Structural)]
pub enum ComponentStatus {
    NotStarted,
    InProgress,
    Implemented,
    NeedsUpdate,
}

impl Default for ComponentStatus {
    /// A component starts out unimplemented.
    fn default() -> (r: Self)
        ensures
            r is NotStarted,
    {
        ComponentStatus::NotStarted
    }
}

impl ComponentStatus {
    /// The status name used in the component map file.
    pub fn as_str(&self) -> (r: &'static str)
        ensures
            self is NotStarted ==> r@ == "not_started"@,
            self is InProgress ==> r@ == "in_progress"@,
            self is Implemented ==> r@ == "implemented"@,
            self is NeedsUpdate ==> r@ == "needs_update"@,
    {
        match self {
            ComponentStatus::NotStarted => "not_started",
            ComponentStatus::InProgress => "in_progress",
            ComponentStatus::Implemented => "implemented",
            ComponentStatus::NeedsUpdate => "needs_update",
        }
    }
}

/// One component of the map from design components to code.
#[derive(Debug, Clone)]
pub struct ComponentEntry {
    /// Node id in the design file.
    pub node_id: String,
    /// Component name in the design file.
    pub figma_name: String,
    /// Path of the code implementation, once linked.
    pub code_path: Option<String>,
    /// Implementation status.
    pub status: ComponentStatus,
    /// Free-form notes.
    pub notes: Option<String>,
}

/// A node that defines a component.
pub open spec fn is_component(n: Node) -> bool {
    n.node_type@ == "COMPONENT"@ || n.node_type@ == "COMPONENT_SET"@
}

/// Id and name of every component node of a subtree, the node itself
/// first.
pub open spec fn subtree_components(n: Node) -> Seq<(Seq<char>, Seq<char>)>
    decreases n,
{
    (if is_component(n) {
        seq![(n.id@, n.name@)]
    } else {
        Seq::empty()
    }) + (match n.children {
        Some(v) => forest_components(v@),
        None => Seq::empty(),
    })
}

/// Id and name of every component node of a list of subtrees.
pub open spec fn forest_components(l: Seq<Node>) -> Seq<(Seq<char>, Seq<char>)>
    decreases l,
{
    if l.len() == 0 {
        Seq::empty()
    } else {
        subtree_components(l.first()) + forest_components(l.drop_first())
    }
}

/// Id and name of every component node of a document.
pub open spec fn document_components(doc: Document) -> Seq<(Seq<char>, Seq<char>)> {
    match doc.children {
        Some(v) => forest_components(v@),
        None => Seq::empty(),
    }
}

proof fn lemma_forest_components_push(l: Seq<Node>, x: Node)
    ensures
        forest_components(l.push(x)) == forest_components(l) + subtree_components(x),
    decreases l.len(),
{
    let p = l.push(x);
    if l.len() == 0 {
        assert(p.first() == x);
        assert(p.drop_first() =~= Seq::<Node>::empty());
        assert(forest_components(Seq::<Node>::empty()) == Seq::<(Seq<char>, Seq<char>)>::empty());
        assert(forest_components(p) == subtree_components(x) + Seq::<(
            Seq<char>,
            Seq<char>,
        )>::empty());
        assert(subtree_components(x) + Seq::<(Seq<char>, Seq<char>)>::empty()
            =~= subtree_components(x));
        assert(forest_components(l) == Seq::<(Seq<char>, Seq<char>)>::empty());
        assert(Seq::<(Seq<char>, Seq<char>)>::empty() + subtree_components(x)
            =~= subtree_components(x));
    } else {
        assert(p.first() == l.first());
        assert(p.drop_first() =~= l.drop_first().push(x));
        lemma_forest_components_push(l.drop_first(), x);
        assert(forest_components(p) == subtree_components(l.first()) + (forest_components(
            l.drop_first()) + subtree_components(x)));
        assert(subtree_components(l.first()) + (forest_components(l.drop_first())
            + subtree_components(x)) =~= (subtree_components(l.first()) + forest_components(
        l.drop_first())) + subtree_components(x));
    }
}

fn visit_components(children: &Option<Vec<Node>>, out: &mut Vec<(String, String)>)
    ensures
        final(out).deep_view() == old(out).deep_view() + (match children {
            Some(v) => forest_components(v@),
            None => Seq::empty(),
        }),
    decreases *children,
{
    match children {
        Some(nodes) => {
            let k = nodes.len();
            let mut i: usize = 0;
            proof {
                assert(out.deep_view() =~= out.deep_view() + forest_components(nodes@.take(0)));
            }
            while i < k
                invariant
                    k == nodes@.len(),
                    0 <= i <= k,
                    children matches Some(nv) && nv@ == nodes@,
                    out.deep_view() == old(out).deep_view() + forest_components(
                        nodes@.take(i as int)),
                decreases k - i,
            {
                let ghost pre = out.deep_view();
                let ghost nd = nodes@.index(i as int);
                let node = &nodes[i];
                let own = if crate::text::str_eq(node.node_type.as_str(), "COMPONENT")
                    || crate::text::str_eq(node.node_type.as_str(), "COMPONENT_SET") {
                    out.push((node.id.clone(), node.name.clone()));
                    true
                } else {
                    false
                };
                proof {
                    if own {
                        assert(out.deep_view() =~= pre + seq![(nd.id@, nd.name@)]);
                    } else {
                        assert(out.deep_view() =~= pre + Seq::<(Seq<char>, Seq<char>)>::empty());
                    }
                }
                let ghost mid = out.deep_view();
                let ghost ownpart = if is_component(nd) {
                    seq![(nd.id@, nd.name@)]
                } else {
                    Seq::<(Seq<char>, Seq<char>)>::empty()
                };
                proof {
                    assert(mid == pre + ownpart);
                    assert(decreases_to!(*children => (children->Some_0)));
                    assert(decreases_to!((children->Some_0) => (children->Some_0)@));
                    assert(decreases_to!((children->Some_0)@ => (children->Some_0)@[i as int]));
                    assert(decreases_to!((children->Some_0)@[i as int] => (
                    children->Some_0)@[i as int].children));
                }
                visit_components(&node.children, out);
                proof {
                    let childpart = match nd.children {
                        Some(v) => forest_components(v@),
                        None => Seq::<(Seq<char>, Seq<char>)>::empty(),
                    };
                    assert(out.deep_view() == mid + childpart);
                    assert((pre + ownpart) + childpart =~= pre + (ownpart + childpart));
                    assert(subtree_components(nd) == ownpart + childpart);
                    lemma_forest_components_push(nodes@.take(i as int), nd);
                    assert(nodes@.take(i + 1) =~= nodes@.take(i as int).push(nd));
                    assert(pre + subtree_components(nd) =~= (old(out).deep_view()
                        + forest_components(nodes@.take(i as int))) + subtree_components(nd));
                    assert((old(out).deep_view() + forest_components(nodes@.take(i as int)))
                        + subtree_components(nd) =~= old(out).deep_view() + (forest_components(
                        nodes@.take(i as int)) + subtree_components(nd)));
                    assert(out.deep_view() =~= old(out).deep_view() + forest_components(
                        nodes@.take(i + 1)));
                }
                i += 1;
            }
            proof {
                assert(nodes@.take(k as int) =~= nodes@);
            }
        },
        None => {},
    }
}

/// A fresh map entry for the component pair `p`.
pub open spec fn fresh_entry_for(e: ComponentEntry, p: (Seq<char>, Seq<char>)) -> bool {
    &&& e.node_id@ == p.0
    &&& e.figma_name@ == p.1
    &&& e.code_path is None
    &&& e.status is NotStarted
    &&& e.notes is None
}

/// One fresh map entry for every component node of the document, in
/// document order: unlinked, not started, without notes.
pub fn extract_components(document: &Document) -> (out: Vec<ComponentEntry>)
    ensures
        out@.len() == document_components(*document).len(),
        forall|i: int| 0 <= i < out@.len() ==> fresh_entry_for(
            #[trigger] out@.index(i), document_components(*document).index(i)),
{
    let mut pairs: Vec<(String, String)> = Vec::new();
    visit_components(&document.children, &mut pairs);
    proof {
        assert(pairs.deep_view() =~= document_components(*document));
    }
    let n = pairs.len();
    let mut out: Vec<ComponentEntry> = Vec::new();
    let mut i: usize = 0;
    while i < n
        invariant
            n == pairs@.len(),
            pairs.deep_view() == document_components(*document),
            0 <= i <= n,
            out@.len() == i,
            forall|t: int| 0 <= t < i ==> fresh_entry_for(
                #[trigger] out@.index(t), document_components(*document).index(t)),
        decreases n - i,
    {
        let entry = ComponentEntry {
            node_id: pairs[i].0.clone(),
            figma_name: pairs[i].1.clone(),
            code_path: None,
            status: ComponentStatus::NotStarted,
            notes: None,
        };
        let ghost prev = out@;
        let ghost ev = entry;
        out.push(entry);
        proof {
            assert(pairs.deep_view().index(i as int) == pairs@.index(i as int).deep_view());
            assert(pairs@.index(i as int).deep_view().0 == pairs@.index(i as int).0@);
            assert(pairs@.index(i as int).deep_view().1 == pairs@.index(i as int).1@);
            assert(out@ == prev.push(ev));
            assert forall|t: int| 0 <= t < i + 1 implies fresh_entry_for(
                #[trigger] out@.index(t), document_components(*document).index(t)) by {
                if t < i {
                    assert(out@.index(t) == prev.index(t));
                    assert(fresh_entry_for(prev.index(t), document_components(
                        *document).index(t)));
                } else {
                    assert(out@.index(t) == ev);
                }
            }
        }
        i += 1;
    }
    out
}

/// How many entries carry the given status.
pub open spec fn count_with_status(l: Seq<ComponentEntry>, st: ComponentStatus) -> nat
    decreases l.len(),
{
    if l.len() == 0 {
        0
    } else {
        count_with_status(l.drop_last(), st) + (if l.last().status == st {
            1nat
        } else {
            0nat
        })
    }
}

/// The coverage numbers of a component map.
pub struct CoverageSummary {
    /// All entries.
    pub total: usize,
    /// Entries implemented.
    pub implemented: usize,
    /// Entries in progress.
    pub in_progress: usize,
    /// Entries needing an update.
    pub needs_update: usize,
    /// Entries not started.
    pub not_started: usize,
    /// Implemented entries as a percentage of all entries; 0 of an
    /// empty map.
    pub percent: usize,
    /// Cells of a 30-cell progress bar that the percentage fills.
    pub bar_filled: usize,
}

fn count_status(entries: &Vec<ComponentEntry>, st: ComponentStatus) -> (r: usize)
    ensures
        r == count_with_status(entries@, st),
        r <= entries@.len(),
{
    let n = entries.len();
    let mut count: usize = 0;
    let mut i: usize = 0;
    while i < n
        invariant
            n == entries@.len(),
            0 <= i <= n,
            count == count_with_status(entries@.take(i as int), st),
            count <= i,
        decreases n - i,
    {
        proof {
            assert(entries@.take(i + 1).drop_last() =~= entries@.take(i as int));
            assert(entries@.take(i + 1).last() == entries@.index(i as int));
        }
        if entries[i].status == st {
            count += 1;
        }
        i += 1;
    }
    proof {
        assert(entries@.take(n as int) =~= entries@);
    }
    count
}

/// Count a component map's entries by status and compute the coverage
/// percentage and its 30-cell progress bar.
pub fn coverage_summary(entries: &Vec<ComponentEntry>) -> (r: CoverageSummary)
    ensures
        r.total == entries@.len(),
        r.implemented == count_with_status(entries@, ComponentStatus::Implemented),
        r.in_progress == count_with_status(entries@, ComponentStatus::InProgress),
        r.needs_update == count_with_status(entries@, ComponentStatus::NeedsUpdate),
        r.not_started == count_with_status(entries@, ComponentStatus::NotStarted),
        r.percent == (if entries@.len() > 0 {
            r.implemented as int * 100 / entries@.len() as int
        } else {
            0int
        }),
        r.bar_filled == r.percent as int * 30 / 100,
{
    let total = entries.len();
    let implemented = count_status(entries, ComponentStatus::Implemented);
    let in_progress = count_status(entries, ComponentStatus::InProgress);
    let needs_update = count_status(entries, ComponentStatus::NeedsUpdate);
    let not_started = count_status(entries, ComponentStatus::NotStarted);
    let percent: usize = if total > 0 {
        (((implemented as u128) * 100) / (total as u128)) as usize
    } else {
        0
    };
    proof {
        if total > 0 {
            assert(implemented as int * 100 / total as int <= 100) by (nonlinear_arith)
                requires
                    0 < total,
                    implemented <= total,
            ;
        }
    }
    let bar_filled: usize = percent * 30 / 100;
    CoverageSummary { total, implemented, in_progress, needs_update, not_started, percent, bar_filled }
}

} // verus!
