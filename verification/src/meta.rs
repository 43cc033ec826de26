//! The three small descriptors beside a document's pages: its metadata, its
//! content descriptor and its list of page templates.

use vstd::prelude::*;

use crate::ident::Identifier;
use crate::layout::Layout;

verus! {

/// Why a metadata descriptor could not be loaded.
#[derive(Debug)]
pub enum MetaDataError {
    /// The descriptor's file could not be read.
    Io(String),
    /// The descriptor's file is malformed.
    Parse(String),
}

/// Why a content descriptor could not be loaded.
#[derive(Debug)]
pub enum ContentDataError {
    /// The descriptor's file could not be read.
    Io(String),
    /// The descriptor's file is malformed, or names an orientation or a page
    /// that is none.
    Parse(String),
}

/// Why a list of page templates could not be loaded.
#[derive(Debug)]
pub enum PageDataError {
    /// The list's file could not be read.
    Io(String),
}

/// What a metadata descriptor says of a document or a folder: the name it
/// shows under and, as text, the folder it lies in.
#[derive(Debug)]
pub struct MetaData {
    pub visible_name: String,
    pub parent: Option<String>,
}

/// The folder that a descriptor's `parent` field names: none where the
/// field is missing, and none where its text is no identifier.
pub open spec fn parent_of(parent: Option<Seq<char>>) -> Option<Identifier> {
    match parent {
        Some(text) => Identifier::spec_parse(text),
        None => None,
    }
}

/// An item has a parent exactly where its descriptor has a `parent` field
/// whose text is a well-formed identifier, and the parent is the identifier
/// that the text spells.
pub proof fn lemma_parent_present(parent: Option<Seq<char>>)
    ensures
        parent_of(parent) is Some <==> parent is Some && crate::ident::parsed_uuid(
            parent->Some_0,
        ) is Some,
        parent_of(parent) matches Some(id) ==> crate::ident::parsed_uuid(parent->Some_0)
            == Some(id.value),
{
}

impl MetaData {
    /// The text of the `parent` field, if the descriptor has one.
    pub open spec fn parent_text(&self) -> Option<Seq<char>> {
        match self.parent {
            Some(text) => Some(text@),
            None => None,
        }
    }

    /// The folder that the descriptor places its item in.  An item whose
    /// descriptor has no `parent`, or one that is no identifier, lies at the
    /// top.
    pub fn parent_id(&self) -> (parent: Option<Identifier>)
        ensures
            parent == parent_of(self.parent_text()),
    {
        match &self.parent {
            Some(text) => Identifier::parse(text.as_str()),
            None => None,
        }
    }
}

/// What a content descriptor says of a document: its orientation and its
/// pages in order.
#[derive(Debug)]
pub struct ContentData {
    pub orientation: Layout,
    pub pages: Vec<Identifier>,
}

/// The texts of a sequence of strings.
pub open spec fn texts(strings: Seq<String>) -> Seq<Seq<char>> {
    Seq::new(strings.len(), |i: int| strings[i]@)
}

/// What each of a sequence of texts spells: an identifier, or nothing.
pub open spec fn parsed_pages(pages: Seq<Seq<char>>) -> Seq<Option<Identifier>> {
    Seq::new(pages.len(), |i: int| Identifier::spec_parse(pages[i]))
}

/// Whether each page was read as an identifier.
pub open spec fn all_read(pages: Seq<Option<Identifier>>) -> bool {
    forall|i: int| 0 <= i < pages.len() ==> (#[trigger] pages[i]) is Some
}

/// The identifiers that the pages were read as.
pub open spec fn identifiers_of(pages: Seq<Option<Identifier>>) -> Seq<Identifier> {
    Seq::new(pages.len(), |i: int| pages[i]->Some_0)
}

/// The content descriptor that the fields of its file make, once read: the
/// orientation that the file's name for it stands for, if any, and for each
/// page the identifier that its text spells, if any.  An orientation that
/// is none is reported before a page that is none.
pub open spec fn content_of(
    orientation: Option<Layout>,
    pages: Seq<Option<Identifier>>,
) -> Result<(Layout, Seq<Identifier>), Seq<char>> {
    match orientation {
        Some(layout) => if all_read(pages) {
            Ok((layout, identifiers_of(pages)))
        } else {
            Err("malformed page identifier"@)
        },
        None => Err("unknown orientation"@),
    }
}

impl ContentData {
    /// Makes a content descriptor of the fields of its file, once read.
    /// Fails where the orientation or one of the pages is none.
    pub fn from_parsed(orientation: Option<Layout>, pages: &Vec<Option<Identifier>>) -> (loaded:
        Result<ContentData, ContentDataError>)
        ensures
            match content_of(orientation, pages@) {
                Ok((layout, ids)) => {
                    &&& loaded is Ok
                    &&& loaded->Ok_0.orientation == layout
                    &&& loaded->Ok_0.pages@ == ids
                },
                Err(reason) => {
                    &&& loaded matches Err(ContentDataError::Parse(message))
                    &&& message@ == reason
                },
            },
    {
        let layout = match orientation {
            Some(layout) => layout,
            None => {
                return Err(ContentDataError::Parse(String::from_str("unknown orientation")));
            },
        };
        let mut ids: Vec<Identifier> = Vec::new();
        let mut i: usize = 0;
        while i < pages.len()
            invariant
                i <= pages@.len(),
                orientation == Some(layout),
                ids@.len() == i,
                forall|j: int| 0 <= j < i ==> (#[trigger] pages@[j]) == Some(ids@[j]),
            decreases pages@.len() - i,
        {
            match pages[i] {
                Some(id) => {
                    ids.push(id);
                },
                None => {
                    assert(pages@[i as int] is None);
                    return Err(
                        ContentDataError::Parse(String::from_str("malformed page identifier")),
                    );
                },
            }
            i += 1;
        }
        assert(ids@ =~= identifiers_of(pages@));
        Ok(ContentData { orientation: layout, pages: ids })
    }

    /// Makes a content descriptor of the fields of its file: the name of
    /// the orientation and the identifiers of the pages, each as text.
    /// Fails where the orientation is neither `landscape` nor `portrait` or
    /// a page's text is no identifier.
    pub fn load(orientation: &str, pages: &Vec<String>) -> (loaded: Result<
        ContentData,
        ContentDataError,
    >)
        ensures
            match content_of(Layout::spec_from_name(orientation@), parsed_pages(texts(pages@))) {
                Ok((layout, ids)) => {
                    &&& loaded is Ok
                    &&& loaded->Ok_0.orientation == layout
                    &&& loaded->Ok_0.pages@ == ids
                },
                Err(reason) => {
                    &&& loaded matches Err(ContentDataError::Parse(message))
                    &&& message@ == reason
                },
            },
    {
        let mut parsed: Vec<Option<Identifier>> = Vec::new();
        let mut i: usize = 0;
        while i < pages.len()
            invariant
                i <= pages@.len(),
                parsed@.len() == i,
                forall|j: int|
                    0 <= j < i ==> (#[trigger] parsed@[j]) == Identifier::spec_parse(pages@[j]@),
            decreases pages@.len() - i,
        {
            parsed.push(Identifier::parse(pages[i].as_str()));
            i += 1;
        }
        assert(parsed@ =~= parsed_pages(texts(pages@)));
        ContentData::from_parsed(Layout::from_name(orientation), &parsed)
    }
}

/// The template names of a document's pages, one for each line of the list's
/// file, in the file's order.  An empty name stands for no template.
#[derive(Debug)]
pub struct PageData {
    pub names: Vec<String>,
}

/// The lines that end within the first `count` characters of a text, and
/// what follows the last of them up to there.
pub open spec fn lines_within(text: Seq<char>, count: nat) -> (Seq<Seq<char>>, Seq<char>)
    decreases count,
{
    if count == 0 {
        (Seq::empty(), Seq::empty())
    } else {
        let (lines, rest) = lines_within(text, (count - 1) as nat);
        let c = text[count - 1];
        if c == '\n' {
            (lines.push(without_return(rest)), Seq::empty())
        } else {
            (lines, rest.push(c))
        }
    }
}

/// A line without the carriage return that may stand before its line feed.
pub open spec fn without_return(line: Seq<char>) -> Seq<char> {
    if line.len() > 0 && line.last() == '\r' {
        line.drop_last()
    } else {
        line
    }
}

/// The lines of a text.  A line ends with a line feed, or with a carriage
/// return and a line feed, neither of which belongs to it.  What follows the
/// last line feed is a line too, unless it is empty.
pub open spec fn lines_of(text: Seq<char>) -> Seq<Seq<char>> {
    let (lines, rest) = lines_within(text, text.len());
    if rest.len() > 0 {
        lines.push(rest)
    } else {
        lines
    }
}

impl PageData {
    /// Makes the list of what reading its file gave: the file's text, or the
    /// message of the failure to read it.  Each line of the text is one
    /// template name.
    pub fn load(read: Result<String, String>) -> (loaded: Result<PageData, PageDataError>)
        ensures
            match read {
                Ok(text) => loaded is Ok && texts(loaded->Ok_0.names@) == lines_of(text@),
                Err(message) => loaded matches Err(PageDataError::Io(text)) && text@ == message@,
            },
    {
        match read {
            Ok(text) => Ok(PageData { names: split_lines(text.as_str()) }),
            Err(message) => Err(PageDataError::Io(message)),
        }
    }
}

/// Splits a text into its lines.
pub fn split_lines(text: &str) -> (lines: Vec<String>)
    ensures
        texts(lines@) == lines_of(text@),
{
    let n: usize = text.unicode_len();
    let mut lines: Vec<String> = Vec::new();
    let mut start: usize = 0;
    let mut i: usize = 0;
    while i < n
        invariant
            n == text@.len(),
            start <= i <= n,
            lines_within(text@, i as nat) == (
                texts(lines@),
                text@.subrange(start as int, i as int),
            ),
        decreases n - i,
    {
        let ghost before = texts(lines@);
        let ghost rest = text@.subrange(start as int, i as int);
        if text.get_char(i) == '\n' {
            let end: usize = if start < i && text.get_char(i - 1) == '\r' {
                i - 1
            } else {
                i
            };
            let line = String::from_str(text.substring_char(start, end));
            assert(line@ =~= without_return(rest));
            lines.push(line);
            assert(texts(lines@) =~= before.push(without_return(rest)));
            start = i + 1;
            assert(text@.subrange(start as int, i + 1) =~= Seq::<char>::empty());
        } else {
            assert(text@.subrange(start as int, i + 1) =~= rest.push(text@[i as int]));
        }
        i += 1;
    }
    if start < n {
        let ghost before = texts(lines@);
        let line = String::from_str(text.substring_char(start, n));
        lines.push(line);
        assert(texts(lines@) =~= before.push(text@.subrange(start as int, n as int)));
    }
    lines
}

} // verus!
