//! Rendering: what a drawing backend has to do to show a document.
//!
//! A document is rendered into a `RenderPlan`.  The plan has one page for
//! each page of the document, and on each page the layers from the bottom
//! up: the background where the page has one, then the page's stroke
//! layers.  Whoever draws the plan walks it once, pages, then layers, then
//! paths.  The source's origin is the top left corner and the backend's the
//! bottom left one: a point `(x, y)` of a path is drawn at `(x, height - y)`,
//! with the height of the page that holds it.

use vstd::prelude::*;

use crate::doc::{pages_view, Document, DocumentView};
use crate::layout::Layout;
use crate::page::{Page, PageView};
use crate::stroke::{Layer, LayerView, Line, LineView, Point, Rgb};
use crate::template::{template_file, template_path, TemplateError};
use crate::text::{decimal, decimal_text};

verus! {

/// Why a document could not be rendered.
#[derive(Debug)]
pub enum RenderError {
    /// The backend failed to draw.
    Drawing(String),
    /// A template's file could not be read.
    InvalidTemplate(TemplateError),
    /// A template's file holds no image that the backend can draw.
    CorruptTemplate(String),
}

/// One line to draw: an open path through the points, stroked in the color
/// and the width, not filled.
#[derive(Debug)]
pub struct PathPlan {
    pub color: Rgb,
    pub width: u32,
    pub points: Vec<Point>,
    pub closed: bool,
    pub filled: bool,
    pub stroked: bool,
}

/// What a `PathPlan` holds.
pub struct PathPlanView {
    pub color: Rgb,
    pub width: u32,
    pub points: Seq<Point>,
    pub closed: bool,
    pub filled: bool,
    pub stroked: bool,
}

impl View for PathPlan {
    type V = PathPlanView;

    open spec fn view(&self) -> PathPlanView {
        PathPlanView {
            color: self.color,
            width: self.width,
            points: self.points@,
            closed: self.closed,
            filled: self.filled,
            stroked: self.stroked,
        }
    }
}

/// One layer to draw.
#[derive(Debug)]
pub enum LayerPlan {
    /// A background image, stretched over the whole page: its width becomes
    /// the page's and its height the page's, each on its own.
    Template { name: String, image: String },
    /// The lines of one stroke layer, in the order they are drawn.
    Strokes { name: String, paths: Vec<PathPlan> },
}

/// What a `LayerPlan` holds.
pub enum LayerPlanView {
    Template { name: Seq<char>, image: Seq<char> },
    Strokes { name: Seq<char>, paths: Seq<PathPlanView> },
}

/// What a sequence of paths holds.
pub open spec fn paths_view(paths: Seq<PathPlan>) -> Seq<PathPlanView> {
    Seq::new(paths.len(), |i: int| paths[i]@)
}

impl View for LayerPlan {
    type V = LayerPlanView;

    open spec fn view(&self) -> LayerPlanView {
        match self {
            LayerPlan::Template { name, image } => LayerPlanView::Template {
                name: name@,
                image: image@,
            },
            LayerPlan::Strokes { name, paths } => LayerPlanView::Strokes {
                name: name@,
                paths: paths_view(paths@),
            },
        }
    }
}

/// One page to draw: its size in points and its layers, bottom first.
#[derive(Debug)]
pub struct PagePlan {
    pub width: u32,
    pub height: u32,
    pub layers: Vec<LayerPlan>,
}

/// What a `PagePlan` holds.
pub struct PagePlanView {
    pub width: u32,
    pub height: u32,
    pub layers: Seq<LayerPlanView>,
}

/// What a sequence of planned layers holds.
pub open spec fn layer_plans_view(layers: Seq<LayerPlan>) -> Seq<LayerPlanView> {
    Seq::new(layers.len(), |i: int| layers[i]@)
}

impl View for PagePlan {
    type V = PagePlanView;

    open spec fn view(&self) -> PagePlanView {
        PagePlanView {
            width: self.width,
            height: self.height,
            layers: layer_plans_view(self.layers@),
        }
    }
}

/// A whole document to draw: the title and page size that the backend's
/// document is made with, and the pages in order.
#[derive(Debug)]
pub struct RenderPlan {
    pub title: String,
    pub width: u32,
    pub height: u32,
    pub pages: Vec<PagePlan>,
}

/// What a `RenderPlan` holds.
pub struct RenderPlanView {
    pub title: Seq<char>,
    pub width: u32,
    pub height: u32,
    pub pages: Seq<PagePlanView>,
}

/// What a sequence of planned pages holds.
pub open spec fn page_plans_view(pages: Seq<PagePlan>) -> Seq<PagePlanView> {
    Seq::new(pages.len(), |i: int| pages[i]@)
}

impl View for RenderPlan {
    type V = RenderPlanView;

    open spec fn view(&self) -> RenderPlanView {
        RenderPlanView {
            title: self.title@,
            width: self.width,
            height: self.height,
            pages: page_plans_view(self.pages@),
        }
    }
}

/// The name of the background layer.
pub open spec fn template_layer_name() -> Seq<char> {
    seq!['T', 'e', 'm', 'p', 'l', 'a', 't', 'e']
}

/// The name of the stroke layer at a position, counted from 1: `Layer 1`,
/// `Layer 2` and so on.
pub open spec fn layer_name(position: nat) -> Seq<char> {
    seq!['L', 'a', 'y', 'e', 'r', ' '] + decimal_text(position)
}

/// The path that draws a line: the line's points in its color and width,
/// left open, stroked and not filled.
pub open spec fn path_of(line: LineView) -> PathPlanView {
    PathPlanView {
        color: line.color.spec_rgb(),
        width: line.width,
        points: line.points,
        closed: false,
        filled: false,
        stroked: true,
    }
}

/// The planned layer that draws a stroke layer at a position, counted from 1.
pub open spec fn strokes_of(layer: LayerView, position: nat) -> LayerPlanView {
    LayerPlanView::Strokes {
        name: layer_name(position),
        paths: Seq::new(layer.lines.len(), |i: int| path_of(layer.lines[i])),
    }
}

/// The planned layers that a page's background takes: one where the page
/// has a background, none where it has not.
pub open spec fn background_of(page: PageView) -> Seq<LayerPlanView> {
    match page.template {
        Some(image) => seq![LayerPlanView::Template { name: template_layer_name(), image }],
        None => Seq::empty(),
    }
}

/// The planned layers that a page's stroke layers take, in their order.
pub open spec fn foreground_of(page: PageView) -> Seq<LayerPlanView> {
    Seq::new(page.layers.len(), |i: int| strokes_of(page.layers[i], (i + 1) as nat))
}

/// The planned page that draws a page in an orientation.
pub open spec fn page_of(page: PageView, layout: Layout) -> PagePlanView {
    PagePlanView {
        width: layout.spec_size().0,
        height: layout.spec_size().1,
        layers: background_of(page) + foreground_of(page),
    }
}

/// The plan that draws a document.
pub open spec fn plan_of(document: DocumentView) -> RenderPlanView {
    RenderPlanView {
        title: document.name,
        width: document.orientation.spec_size().0,
        height: document.orientation.spec_size().1,
        pages: Seq::new(
            document.pages.len(),
            |i: int| page_of(document.pages[i].0, document.orientation),
        ),
    }
}

/// The number of layers that a page's background takes in a plan.
pub open spec fn background_layers(page: PageView) -> nat {
    if page.template is Some {
        1
    } else {
        0
    }
}

/// A document's plan has one page for each page of the document, in the
/// document's orientation.  Each planned page has one layer for the page's
/// background, where it has one, and above it one layer for each of the
/// page's stroke layers, in their order and named by their position; each
/// of those has one path for each line.
pub proof fn lemma_plan_shape(document: DocumentView)
    ensures
        plan_of(document).pages.len() == document.pages.len(),
        forall|i: int|
            0 <= i < document.pages.len() ==> {
                let page = document.pages[i].0;
                let planned = #[trigger] plan_of(document).pages[i];
                &&& planned.width == document.orientation.spec_size().0
                &&& planned.height == document.orientation.spec_size().1
                &&& planned.layers.len() == background_layers(page) + page.layers.len()
                &&& page.template is Some ==> planned.layers[0] == (LayerPlanView::Template {
                    name: template_layer_name(),
                    image: page.template->Some_0,
                })
                &&& forall|j: int|
                    0 <= j < page.layers.len() ==> {
                        let layer = #[trigger] planned.layers[background_layers(page) + j];
                        &&& layer == strokes_of(page.layers[j], (j + 1) as nat)
                        &&& layer is Strokes
                        &&& layer->Strokes_name == layer_name((j + 1) as nat)
                        &&& layer->paths.len() == page.layers[j].lines.len()
                    }
            },
{
}

/// Writes the name of the stroke layer at a position, counted from 1.
pub fn name_layer(position: usize) -> (name: String)
    ensures
        name@ == layer_name(position as nat),
{
    proof {
        reveal_strlit("Layer ");
    }
    let name = String::from_str("Layer ").concat(decimal(position).as_str());
    assert(name@ =~= layer_name(position as nat));
    name
}

impl Line {
    /// Plans the path that draws the line.
    pub fn plan(&self) -> (path: PathPlan)
        ensures
            path@ == path_of(self@),
    {
        let mut points: Vec<Point> = Vec::new();
        let mut i: usize = 0;
        while i < self.points.len()
            invariant
                i <= self.points@.len(),
                points@ == self.points@.subrange(0, i as int),
            decreases self.points@.len() - i,
        {
            points.push(self.points[i]);
            assert(points@ =~= self.points@.subrange(0, i + 1));
            i += 1;
        }
        assert(points@ =~= self.points@);
        PathPlan {
            color: self.color.rgb(),
            width: self.width,
            points,
            closed: false,
            filled: false,
            stroked: true,
        }
    }
}

impl Layer {
    /// Plans the layer that draws this stroke layer at a position, counted
    /// from 1: one path for each line, in the lines' order.
    pub fn plan(&self, position: usize) -> (layer: LayerPlan)
        ensures
            layer@ == strokes_of(self@, position as nat),
    {
        let mut paths: Vec<PathPlan> = Vec::new();
        let mut i: usize = 0;
        while i < self.lines.len()
            invariant
                i <= self.lines@.len(),
                paths@.len() == i,
                forall|j: int| 0 <= j < i ==> (#[trigger] paths@[j])@ == path_of(self.lines@[j]@),
            decreases self.lines@.len() - i,
        {
            paths.push(self.lines[i].plan());
            i += 1;
        }
        assert(paths_view(paths@) =~= Seq::new(
            self@.lines.len(),
            |i: int| path_of(self@.lines[i]),
        ));
        LayerPlan::Strokes { name: name_layer(position), paths }
    }
}

impl Page {
    /// Plans the page that draws this page in an orientation: the
    /// background first where the page has one, then one layer for each
    /// stroke layer, named by its position.
    pub fn plan(&self, layout: Layout) -> (page: PagePlan)
        ensures
            page@ == page_of(self@, layout),
    {
        let mut layers: Vec<LayerPlan> = Vec::new();
        match self.template() {
            Some(image) => {
                proof {
                    reveal_strlit("Template");
                }
                let name = String::from_str("Template");
                assert(name@ =~= template_layer_name());
                layers.push(LayerPlan::Template { name, image: String::from_str(image.as_str()) });
            },
            None => {},
        }
        assert(layer_plans_view(layers@) =~= background_of(self@));
        let strokes = self.layers();
        let ghost behind = layers@.len();
        let mut i: usize = 0;
        while i < strokes.len()
            invariant
                i <= strokes@.len(),
                behind == background_of(self@).len(),
                crate::stroke::layers_view(strokes@) == self@.layers,
                layers@.len() == behind + i,
                forall|j: int|
                    0 <= j < behind ==> (#[trigger] layers@[j])@ == background_of(self@)[j],
                forall|j: int|
                    behind <= j < behind + i ==> (#[trigger] layers@[j])@ == strokes_of(
                        self@.layers[j - behind],
                        (j - behind + 1) as nat,
                    ),
            decreases strokes@.len() - i,
        {
            assert(crate::stroke::layers_view(strokes@)[i as int] == strokes@[i as int]@);
            layers.push(strokes[i].plan(i + 1));
            i += 1;
        }
        let (width, height) = layout.size();
        assert(strokes@.len() == crate::stroke::layers_view(strokes@).len());
        assert(layer_plans_view(layers@) =~= background_of(self@) + foreground_of(self@));
        PagePlan { width, height, layers }
    }
}

/// What reading the templates' files gave, page by page: a file's text, or
/// nothing where it could not be read.
pub open spec fn contents_view(contents: Seq<Option<String>>) -> Seq<Option<Seq<char>>> {
    Seq::new(
        contents.len(),
        |i: int|
            match contents[i] {
                Some(text) => Some(text@),
                None => None,
            },
    )
}

/// How many of the first `count` pages get their template before one is
/// missing: a page's template is missing where its file could not be read
/// or nothing was handed in for it.
pub open spec fn readable_prefix(contents: Seq<Option<Seq<char>>>, count: nat) -> nat
    decreases count,
{
    if count == 0 {
        0
    } else {
        let before = readable_prefix(contents, (count - 1) as nat);
        if before == count - 1 && !missing(contents, count - 1) {
            count
        } else {
            before
        }
    }
}

/// Whether the template of the page at a position is missing: its file
/// could not be read, or nothing was handed in for it.
pub open spec fn missing(contents: Seq<Option<Seq<char>>>, position: int) -> bool {
    !(0 <= position < contents.len() && contents[position] is Some)
}

/// The pages that get their template are those before the first page whose
/// template is missing, and all of them where none is missing.
pub proof fn lemma_readable_prefix(contents: Seq<Option<Seq<char>>>, count: nat)
    ensures
        readable_prefix(contents, count) <= count,
        forall|i: int| 0 <= i < readable_prefix(contents, count) ==> !missing(contents, i),
        readable_prefix(contents, count) < count ==> missing(
            contents,
            readable_prefix(contents, count) as int,
        ),
    decreases count,
{
    if count > 0 {
        lemma_readable_prefix(contents, (count - 1) as nat);
    }
}

/// Once a page's template is missing, no later page is reached.
pub proof fn lemma_readable_prefix_stops(
    contents: Seq<Option<Seq<char>>>,
    stop: nat,
    count: nat,
)
    requires
        readable_prefix(contents, stop) == stop,
        stop < count,
        missing(contents, stop as int),
    ensures
        readable_prefix(contents, count) == stop,
    decreases count,
{
    if count > stop + 1 {
        lemma_readable_prefix_stops(contents, stop, (count - 1) as nat);
    }
}

/// The pages with the first `count` of them given the templates read for
/// them and the others left as they are.
pub open spec fn with_templates(
    pages: Seq<(PageView, Seq<char>)>,
    contents: Seq<Option<Seq<char>>>,
    count: nat,
) -> Seq<(PageView, Seq<char>)> {
    Seq::new(
        pages.len(),
        |i: int|
            if i < count {
                (PageView { template: contents[i], layers: pages[i].0.layers }, pages[i].1)
            } else {
                pages[i]
            },
    )
}

/// The paths of the template files of a document's pages, in the pages'
/// order; none where the document has no template directory.
pub open spec fn template_paths_of(document: DocumentView) -> Seq<Seq<char>> {
    match document.template_dir {
        Some(dir) => Seq::new(
            document.pages.len(),
            |i: int| template_path(dir, document.pages[i].1),
        ),
        None => Seq::empty(),
    }
}

impl Document {
    /// The files that rendering wants read: for each page the path of its
    /// template in the template directory, in the pages' order.  Nothing is
    /// wanted while no template directory is set.
    pub fn template_paths(&self) -> (paths: Vec<String>)
        ensures
            crate::meta::texts(paths@) == template_paths_of(self@),
    {
        let mut paths: Vec<String> = Vec::new();
        proof {
            self.lemma_view();
        }
        match &self.template_dir {
            Some(dir) => {
                let mut i: usize = 0;
                while i < self.pages.len()
                    invariant
                        i <= self.pages@.len(),
                        paths@.len() == i,
                        forall|j: int|
                            0 <= j < i ==> (#[trigger] paths@[j])@ == template_path(
                                dir@,
                                self.pages@[j].1@,
                            ),
                    decreases self.pages@.len() - i,
                {
                    paths.push(template_file(dir.as_str(), self.pages[i].1.as_str()));
                    i += 1;
                }
                assert(crate::meta::texts(paths@) =~= template_paths_of(self@));
            },
            None => {
                assert(crate::meta::texts(paths@) =~= template_paths_of(self@));
            },
        }
        paths
    }

    /// Renders the document.  `templates` holds what reading the files of
    /// `template_paths` gave, in that order: a file's text, or nothing where
    /// it could not be read.
    ///
    /// Without a template directory nothing is read and the document is
    /// planned as it stands.  With one, each page in turn gets the template
    /// read for it; the first page whose template is missing ends the
    /// rendering with the path of the missing file, the pages before it
    /// keeping their templates.  Where no template is missing the result is
    /// the plan of the document with all of them.
    pub fn render_pdf(&mut self, templates: &Vec<Option<String>>) -> (rendered: Result<
        RenderPlan,
        RenderError,
    >)
        ensures
            match old(self)@.template_dir {
                None => {
                    &&& final(self)@ == old(self)@
                    &&& rendered is Ok
                    &&& rendered->Ok_0@ == plan_of(old(self)@)
                },
                Some(dir) => {
                    let contents = contents_view(templates@);
                    let count = readable_prefix(contents, old(self)@.pages.len());
                    &&& final(self)@ == (DocumentView {
                        pages: with_templates(old(self)@.pages, contents, count),
                        ..old(self)@
                    })
                    &&& if count == old(self)@.pages.len() {
                        rendered is Ok && rendered->Ok_0@ == plan_of(final(self)@)
                    } else {
                        &&& rendered matches Err(RenderError::InvalidTemplate(error))
                        &&& error.0@ == template_path(dir, old(self)@.pages[count as int].1)
                    }
                },
            },
    {
        proof {
            self.lemma_view();
        }
        let dir = match &self.template_dir {
            Some(dir) => dir.clone(),
            None => {
                return Ok(self.plan());
            },
        };
        let ghost before = self@;
        let ghost contents = contents_view(templates@);
        let n: usize = self.pages.len();
        let mut i: usize = 0;
        assert(with_templates(before.pages, contents, 0) =~= before.pages);
        while i < n
            invariant
                i <= n,
                before == old(self)@,
                n == before.pages.len(),
                n == self.pages@.len(),
                before.template_dir == Some(dir@),
                contents == contents_view(templates@),
                readable_prefix(contents, i as nat) == i,
                self@ == (DocumentView { pages: with_templates(before.pages, contents, i as nat), ..before }),
            decreases n - i,
        {
            proof {
                self.lemma_view();
            }
            let ghost pages_before = self.pages@;
            assert(pages_view(pages_before)[i as int] == with_templates(
                before.pages,
                contents,
                i as nat,
            )[i as int]);
            let path = template_file(dir.as_str(), self.pages[i].1.as_str());
            let read = if i < templates.len() {
                match &templates[i] {
                    Some(text) => Some(text.clone()),
                    None => None,
                }
            } else {
                None
            };
            assert(read is Some ==> i < contents.len() && contents[i as int] == Some(
                read->Some_0@,
            ));
            assert(read is None ==> !(i < contents.len() && contents[i as int] is Some));
            match self.pages[i].0.with_template(path.as_str(), read) {
                Ok(()) => {},
                Err(error) => {
                    proof {
                        self.lemma_view();
                        assert(pages_view(self.pages@) =~= pages_view(pages_before));
                        lemma_readable_prefix_stops(contents, i as nat, n as nat);
                    }
                    return Err(RenderError::InvalidTemplate(error));
                },
            }
            proof {
                self.lemma_view();
                assert forall|j: int| 0 <= j < n implies pages_view(self.pages@)[j]
                    == with_templates(before.pages, contents, (i + 1) as nat)[j] by {
                    assert(pages_view(pages_before)[j] == with_templates(
                        before.pages,
                        contents,
                        i as nat,
                    )[j]);
                }
                assert(pages_view(self.pages@) =~= with_templates(
                    before.pages,
                    contents,
                    (i + 1) as nat,
                ));
            }
            i += 1;
        }
        Ok(self.plan())
    }

    /// Plans the drawing of the document as it stands: one page for each of
    /// its pages, in order, each in the document's orientation.
    pub fn plan(&self) -> (plan: RenderPlan)
        ensures
            plan@ == plan_of(self@),
    {
        let mut pages: Vec<PagePlan> = Vec::new();
        let mut i: usize = 0;
        while i < self.pages.len()
            invariant
                i <= self.pages@.len(),
                pages@.len() == i,
                forall|j: int|
                    0 <= j < i ==> (#[trigger] pages@[j])@ == page_of(
                        self.pages@[j].0@,
                        self.orientation,
                    ),
            decreases self.pages@.len() - i,
        {
            pages.push(self.pages[i].0.plan(self.orientation));
            i += 1;
        }
        let (width, height) = self.orientation.size();
        proof {
            self.lemma_view();
        }
        assert(page_plans_view(pages@) =~= plan_of(self@).pages);
        RenderPlan { title: String::from_str(self.name.as_str()), width, height, pages }
    }
}

} // verus!
