//! Folders and documents, and the steps that build them from what was read.

use vstd::prelude::*;

use crate::ident::Identifier;
use crate::layout::Layout;
use crate::meta::{
    parent_of, texts, ContentData, ContentDataError, MetaData, MetaDataError, PageData,
    PageDataError,
};
use crate::page::{Page, PageError, PageView};

verus! {

/// Why a folder could not be loaded.
#[derive(Debug)]
pub enum CollectionError {
    /// The folder's metadata could not be loaded.
    MetaData(MetaDataError),
    /// An identifier is malformed.
    Uuid(String),
}

/// A folder: a name and a place in the tree, without pages.
#[derive(Clone, Debug)]
pub struct Collection {
    pub(crate) name: String,
    pub(crate) parent: Option<Identifier>,
}

/// What a `Collection` holds.
pub struct CollectionView {
    pub name: Seq<char>,
    pub parent: Option<Identifier>,
}

impl View for Collection {
    type V = CollectionView;

    closed spec fn view(&self) -> CollectionView {
        CollectionView { name: self.name@, parent: self.parent }
    }
}

impl Collection {
    /// Makes a folder of what loading its metadata gave.  The folder shows
    /// under the metadata's name, and lies in the folder that the metadata's
    /// `parent` names, or at the top where that is missing or no identifier.
    pub fn load(metadata: Result<MetaData, MetaDataError>) -> (loaded: Result<
        Collection,
        CollectionError,
    >)
        ensures
            match metadata {
                Ok(data) => loaded is Ok && loaded->Ok_0@ == (CollectionView {
                    name: data.visible_name@,
                    parent: parent_of(data.parent_text()),
                }),
                Err(error) => loaded == Err::<Collection, CollectionError>(
                    CollectionError::MetaData(error),
                ),
            },
    {
        match metadata {
            Ok(data) => {
                let parent = data.parent_id();
                Ok(Collection { name: data.visible_name, parent })
            },
            Err(error) => Err(CollectionError::MetaData(error)),
        }
    }

    /// The name that the folder shows under.
    pub fn name(&self) -> (name: &str)
        ensures
            name@ == self@.name,
    {
        self.name.as_str()
    }

    /// The folder that this one lies in, if it does not lie at the top.
    pub fn parent(&self) -> (parent: Option<Identifier>)
        ensures
            parent == self@.parent,
    {
        self.parent
    }
}

/// Why a document could not be loaded.
#[derive(Debug)]
pub enum DocumentError {
    /// The document's content descriptor could not be loaded.
    ContentData(ContentDataError),
    /// The document's metadata could not be loaded.
    MetaData(MetaDataError),
    /// The document's list of page templates could not be loaded.
    PageData(PageDataError),
    /// One of the document's pages could not be loaded.
    Parse(PageError),
    /// An identifier is malformed.
    Uuid(String),
}

/// A document: pages in order, each beside the name of its template.
#[derive(Clone, Debug)]
pub struct Document {
    pub(crate) name: String,
    pub(crate) pages: Vec<(Page, String)>,
    pub(crate) parent: Option<Identifier>,
    pub(crate) orientation: Layout,
    pub(crate) template_dir: Option<String>,
}

/// What a `Document` holds.
pub struct DocumentView {
    pub name: Seq<char>,
    pub pages: Seq<(PageView, Seq<char>)>,
    pub parent: Option<Identifier>,
    pub orientation: Layout,
    pub template_dir: Option<Seq<char>>,
}

/// What a sequence of pages, each beside its template's name, holds.
pub open spec fn pages_view(pages: Seq<(Page, String)>) -> Seq<(PageView, Seq<char>)> {
    Seq::new(pages.len(), |i: int| (pages[i].0@, pages[i].1@))
}

impl View for Document {
    type V = DocumentView;

    closed spec fn view(&self) -> DocumentView {
        DocumentView {
            name: self.name@,
            pages: pages_view(self.pages@),
            parent: self.parent,
            orientation: self.orientation,
            template_dir: match self.template_dir {
                Some(dir) => Some(dir@),
                None => None,
            },
        }
    }
}

impl Document {
    /// The view, field by field.
    pub(crate) proof fn lemma_view(&self)
        ensures
            self@.name == self.name@,
            self@.pages == pages_view(self.pages@),
            self@.parent == self.parent,
            self@.orientation == self.orientation,
            self@.template_dir == match self.template_dir {
                Some(dir) => Some(dir@),
                None => None,
            },
    {
    }

    /// The folder that the document lies in, if it does not lie at the top.
    pub fn parent(&self) -> (parent: Option<Identifier>)
        ensures
            parent == self@.parent,
    {
        self.parent
    }

    /// The name that the document shows under.
    pub fn name(&self) -> (name: &str)
        ensures
            name@ == self@.name,
    {
        self.name.as_str()
    }

    /// The orientation of the document's pages.
    pub fn orientation(&self) -> (orientation: Layout)
        ensures
            orientation == self@.orientation,
    {
        self.orientation
    }

    /// The number of the document's pages.
    pub fn page_count(&self) -> (count: usize)
        ensures
            count == self@.pages.len(),
    {
        self.pages.len()
    }

    /// Sets the directory that templates are read from when the document is
    /// rendered.  Nothing else changes.
    pub fn set_template_dir(&mut self, path: &str)
        ensures
            final(self)@ == (DocumentView { template_dir: Some(path@), ..old(self)@ }),
    {
        self.template_dir = Some(String::from_str(path));
    }

    /// The document with the directory that templates are read from set.
    pub fn with_template_dir(self, path: &str) -> (document: Document)
        ensures
            document@ == (DocumentView { template_dir: Some(path@), ..self@ }),
    {
        let mut document = self;
        document.set_template_dir(path);
        document
    }
}

/// A document in the making: what its three descriptors said, and the pages
/// loaded so far.
///
/// The pages that a document takes are the first of its content descriptor
/// for which the list of templates has a line: as many as the shorter of the
/// two has.  They are loaded in order.  `next_page` names the file to read
/// next, `add_page` takes what reading it gave, and `finish` hands out the
/// document once no page is wanted any more.
#[derive(Debug)]
pub struct DocumentLoader {
    name: String,
    parent: Option<Identifier>,
    orientation: Layout,
    ids: Vec<Identifier>,
    templates: Vec<String>,
    pages: Vec<(Page, String)>,
}

/// What a `DocumentLoader` holds.
pub struct DocumentLoaderView {
    pub name: Seq<char>,
    pub parent: Option<Identifier>,
    pub orientation: Layout,
    pub ids: Seq<Identifier>,
    pub templates: Seq<Seq<char>>,
    pub pages: Seq<(PageView, Seq<char>)>,
}

impl DocumentLoaderView {
    /// The number of pages that the document takes: as many as the shorter
    /// of the page list and the template list has.
    pub open spec fn wanted(self) -> nat {
        if self.ids.len() <= self.templates.len() {
            self.ids.len()
        } else {
            self.templates.len()
        }
    }

    /// Whether every page that the document takes is loaded.
    pub open spec fn complete(self) -> bool {
        self.pages.len() >= self.wanted()
    }
}

/// The name of a stroke file: the page's identifier as text, and the
/// extension `.rm`.
pub open spec fn stroke_file_name(stem: Seq<char>) -> Seq<char> {
    stem + seq!['.', 'r', 'm']
}

/// The name of the file, in a document's directory, that holds a page's
/// strokes.
pub open spec fn page_file_name(id: Identifier) -> Seq<char> {
    stroke_file_name(crate::ident::hyphenated_uuid(id.value))
}

/// Writes the name of the stroke file of the page whose identifier has the
/// given text.
pub fn stroke_file(stem: String) -> (name: String)
    ensures
        name@ == stroke_file_name(stem@),
{
    proof {
        reveal_strlit(".rm");
    }
    let name = stem.concat(".rm");
    assert(name@ =~= stroke_file_name(stem@));
    name
}

impl View for DocumentLoader {
    type V = DocumentLoaderView;

    closed spec fn view(&self) -> DocumentLoaderView {
        DocumentLoaderView {
            name: self.name@,
            parent: self.parent,
            orientation: self.orientation,
            ids: self.ids@,
            templates: texts(self.templates@),
            pages: pages_view(self.pages@),
        }
    }
}

impl DocumentLoader {
    #[verifier::type_invariant]
    spec fn paired(self) -> bool {
        &&& self.pages@.len() <= self.ids@.len()
        &&& self.pages@.len() <= self.templates@.len()
        &&& forall|i: int|
            0 <= i < self.pages@.len() ==> (#[trigger] self.pages@[i]).1@ == self.templates@[i]@
    }

    /// Starts a document from its three descriptors.  No page is loaded yet.
    pub fn new(metadata: MetaData, content: ContentData, page_data: PageData) -> (loader:
        DocumentLoader)
        ensures
            loader@ == (DocumentLoaderView {
                name: metadata.visible_name@,
                parent: parent_of(metadata.parent_text()),
                orientation: content.orientation,
                ids: content.pages@,
                templates: texts(page_data.names@),
                pages: Seq::empty(),
            }),
    {
        let parent = metadata.parent_id();
        let loader = DocumentLoader {
            name: metadata.visible_name,
            parent,
            orientation: content.orientation,
            ids: content.pages,
            templates: page_data.names,
            pages: Vec::new(),
        };
        assert(pages_view(loader.pages@) =~= Seq::empty());
        loader
    }

    /// The name of the stroke file to read next: that of the first page not
    /// loaded yet, or nothing once every page that the document takes is
    /// loaded.
    pub fn next_page(&self) -> (file: Option<String>)
        ensures
            match file {
                Some(name) => !self@.complete() && name@ == page_file_name(
                    self@.ids[self@.pages.len() as int],
                ),
                None => self@.complete(),
            },
    {
        proof {
            use_type_invariant(self);
        }
        let next: usize = self.pages.len();
        if next < self.ids.len() && next < self.templates.len() {
            Some(stroke_file(self.ids[next].hyphenated()))
        } else {
            None
        }
    }

    /// Takes what loading the page that `next_page` named gave: the page, or
    /// the reason why there is none.
    ///
    /// The page is put behind the pages loaded so far, beside the template
    /// name at its position.  A failure leaves the loader as it was and is
    /// handed on as the document's failure.  Once the document is complete
    /// nothing is taken any more.
    pub fn add_page(&mut self, page: Result<Page, PageError>) -> (added: Result<(), DocumentError>)
        ensures
            final(self)@.name == old(self)@.name,
            final(self)@.parent == old(self)@.parent,
            final(self)@.orientation == old(self)@.orientation,
            final(self)@.ids == old(self)@.ids,
            final(self)@.templates == old(self)@.templates,
            old(self)@.complete() ==> added is Ok && final(self)@.pages == old(self)@.pages,
            !old(self)@.complete() ==> match page {
                Ok(loaded) => {
                    &&& added is Ok
                    &&& final(self)@.pages == old(self)@.pages.push(
                        (loaded@, old(self)@.templates[old(self)@.pages.len() as int]),
                    )
                },
                Err(error) => {
                    &&& added == Err::<(), DocumentError>(DocumentError::Parse(error))
                    &&& final(self)@.pages == old(self)@.pages
                },
            },
    {
        proof {
            use_type_invariant(&*self);
        }
        let next: usize = self.pages.len();
        if next < self.ids.len() && next < self.templates.len() {
            match page {
                Ok(loaded) => {
                    let name = self.templates[next].clone();
                    let ghost before = self.pages@;
                    // The pages leave the loader while they grow, so that it
                    // stays well formed at every step.
                    let mut pages: Vec<(Page, String)> = Vec::new();
                    std::mem::swap(&mut self.pages, &mut pages);
                    pages.push((loaded, name));
                    std::mem::swap(&mut self.pages, &mut pages);
                    assert(pages_view(self.pages@) =~= pages_view(before).push(
                        (loaded@, texts(self.templates@)[next as int]),
                    ));
                    Ok(())
                },
                Err(error) => Err(DocumentError::Parse(error)),
            }
        } else {
            Ok(())
        }
    }

    /// Hands out the document once every page that it takes is loaded, and
    /// nothing before.
    ///
    /// The document has as many pages as the shorter of the page list and
    /// the template list, in their order, each beside the template name at
    /// its position.  It has the metadata's name and parent, the content
    /// descriptor's orientation, and no template directory.
    pub fn finish(self) -> (document: Option<Document>)
        ensures
            match document {
                Some(loaded) => {
                    &&& self@.complete()
                    &&& loaded@ == (DocumentView {
                        name: self@.name,
                        pages: self@.pages,
                        parent: self@.parent,
                        orientation: self@.orientation,
                        template_dir: None,
                    })
                    &&& loaded@.pages.len() == self@.wanted()
                    &&& forall|i: int|
                        0 <= i < loaded@.pages.len() ==> (#[trigger] loaded@.pages[i]).1
                            == self@.templates[i]
                },
                None => !self@.complete(),
            },
    {
        proof {
            use_type_invariant(&self);
        }
        let next: usize = self.pages.len();
        if next < self.ids.len() && next < self.templates.len() {
            None
        } else {
            Some(
                Document {
                    name: self.name,
                    pages: self.pages,
                    parent: self.parent,
                    orientation: self.orientation,
                    template_dir: None,
                },
            )
        }
    }
}

/// Why an entry could not be resolved.
#[derive(Debug)]
pub enum EntryError {
    /// The entry was taken for a folder, and the folder could not be loaded.
    Collection(CollectionError),
    /// The entry's metadata could not be loaded.
    Document(DocumentError),
}

/// A node of the notebook tree: a folder or a document.
#[derive(Clone, Debug)]
pub enum Entry {
    Collection(Collection),
    Document(Document),
}

/// What is known of an entry once loading it as a document was tried.
#[derive(Debug)]
pub enum Resolution {
    /// The entry is this one.
    Resolved(Entry),
    /// The entry is neither a document nor a folder.
    Failed(EntryError),
    /// The entry is no document.  Loading it as a folder decides.
    Undecided,
}

impl Entry {
    /// What loading an entry as a document says of it.  A document is the
    /// entry.  A failure of the metadata ends the resolution.  After any
    /// other failure the entry is still undecided.
    pub open spec fn spec_tried_as_document(
        document: Result<Document, DocumentError>,
    ) -> Resolution {
        match document {
            Ok(loaded) => Resolution::Resolved(Entry::Document(loaded)),
            Err(DocumentError::MetaData(error)) => Resolution::Failed(
                EntryError::Document(DocumentError::MetaData(error)),
            ),
            Err(_) => Resolution::Undecided,
        }
    }

    /// What loading an undecided entry as a folder says of it.
    pub open spec fn spec_tried_as_collection(
        collection: Result<Collection, CollectionError>,
    ) -> Result<Entry, EntryError> {
        match collection {
            Ok(loaded) => Ok(Entry::Collection(loaded)),
            Err(error) => Err(EntryError::Collection(error)),
        }
    }

    /// The entry that the two attempts resolve to, the second being made
    /// only where the first leaves the entry undecided.
    pub open spec fn spec_resolve(
        document: Result<Document, DocumentError>,
        collection: Result<Collection, CollectionError>,
    ) -> Result<Entry, EntryError> {
        match Entry::spec_tried_as_document(document) {
            Resolution::Resolved(entry) => Ok(entry),
            Resolution::Failed(error) => Err(error),
            Resolution::Undecided => Entry::spec_tried_as_collection(collection),
        }
    }

    /// Takes what loading the entry as a document gave, and says whether
    /// that settles what the entry is.
    ///
    /// A document that loaded is the entry.  Where the metadata could not be
    /// loaded the entry is neither document nor folder, and the failure is
    /// handed on as it is.  After any other failure the entry may still be a
    /// folder: the caller loads it as one and hands the outcome to
    /// `tried_as_collection`.
    pub fn tried_as_document(document: Result<Document, DocumentError>) -> (resolution: Resolution)
        ensures
            resolution == Entry::spec_tried_as_document(document),
    {
        match document {
            Ok(loaded) => Resolution::Resolved(Entry::Document(loaded)),
            Err(DocumentError::MetaData(error)) => Resolution::Failed(
                EntryError::Document(DocumentError::MetaData(error)),
            ),
            Err(_) => Resolution::Undecided,
        }
    }

    /// Takes what loading an undecided entry as a folder gave: the folder is
    /// the entry, and a failure is the resolution's failure.
    pub fn tried_as_collection(collection: Result<Collection, CollectionError>) -> (entry: Result<
        Entry,
        EntryError,
    >)
        ensures
            entry == Entry::spec_tried_as_collection(collection),
    {
        match collection {
            Ok(loaded) => Ok(Entry::Collection(loaded)),
            Err(error) => Err(EntryError::Collection(error)),
        }
    }
}

/// An entry whose metadata cannot be loaded never resolves, whatever loading
/// it as a folder would give.
pub proof fn lemma_metadata_failure_is_fatal(
    error: MetaDataError,
    collection: Result<Collection, CollectionError>,
)
    ensures
        Entry::spec_resolve(Err(DocumentError::MetaData(error)), collection) == Err::<
            Entry,
            EntryError,
        >(EntryError::Document(DocumentError::MetaData(error))),
{
}

/// An entry that fails to load as a document for any reason but its
/// metadata resolves to what loading it as a folder gives: the folder, or
/// the folder's failure.
pub proof fn lemma_other_failure_falls_back(
    error: DocumentError,
    collection: Result<Collection, CollectionError>,
)
    requires
        !(error is MetaData),
    ensures
        Entry::spec_resolve(Err(error), collection) == match collection {
            Ok(folder) => Ok::<Entry, EntryError>(Entry::Collection(folder)),
            Err(failure) => Err::<Entry, EntryError>(EntryError::Collection(failure)),
        },
{
}

/// An entry that loads as a document is that document.
pub proof fn lemma_document_resolves(
    document: Document,
    collection: Result<Collection, CollectionError>,
)
    ensures
        Entry::spec_resolve(Ok(document), collection) == Ok::<Entry, EntryError>(
            Entry::Document(document),
        ),
{
}

} // verus!
