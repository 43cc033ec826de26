//! One page of a document: its strokes and, once loaded, its background.

use rm_lines::{Color as Ink, Page as StrokeFile, Parse};
use vstd::prelude::*;

use crate::stroke::{layers_view, Color, Layer, LayerView, Line, Point};
use crate::template::{Template, TemplateError};

verus! {

/// Why a page could not be loaded.
#[derive(Debug)]
pub enum PageError {
    /// The page's file could not be read.
    Io(String),
    /// The page's file does not hold strokes in the tablet's format.
    Parse(String),
}

/// A page: layers of strokes over an optional background.
#[derive(Clone, Debug)]
pub struct Page {
    pub(crate) template: Option<Template>,
    pub(crate) layers: Vec<Layer>,
}

/// What a `Page` holds.
pub struct PageView {
    pub template: Option<Seq<char>>,
    pub layers: Seq<LayerView>,
}

impl View for Page {
    type V = PageView;

    closed spec fn view(&self) -> PageView {
        PageView {
            template: match self.template {
                Some(template) => Some(template@),
                None => None,
            },
            layers: layers_view(self.layers@),
        }
    }
}

/// What `rm_lines` makes of a stroke file's bytes: the layers, or the text
/// of its complaint.
pub uninterp spec fn decoded_page(bytes: Seq<u8>) -> Result<Seq<LayerView>, Seq<char>>;

/// Calls `rm_lines::Page::parse` and writes what it returns in the library's
/// own types.  The layers, lines and points come in the file's order; input
/// left over after the last layer is dropped; a failure is given as the
/// parser's message.  The result depends on the bytes alone.
#[verifier::external_body]
fn decode_layers(bytes: &[u8]) -> (decoded: Result<Vec<Layer>, String>)
    ensures
        match decoded_page(bytes@) {
            Ok(layers) => decoded is Ok && layers_view(decoded->Ok_0@) == layers,
            Err(message) => decoded is Err && decoded->Err_0@ == message,
        },
{
    let (_, page) = StrokeFile::parse(bytes).map_err(|e| e.to_string())?;
    Ok(page.layers.into_iter().map(|layer| Layer {
        lines: layer.lines.into_iter().map(|line| Line {
            color: match line.color {
                Ink::Black => Color::Black,
                Ink::Grey => Color::Grey,
                Ink::White => Color::White,
                Ink::Blue => Color::Blue,
                Ink::Red => Color::Red,
            },
            width: line.size.to_bits(),
            points: line.points.iter().map(|p| Point { x: p.x.to_bits(), y: p.y.to_bits() }).collect(),
        }).collect(),
    }).collect())
}

impl Page {
    /// Makes a page of what decoding its stroke file gave: the layers, or the
    /// decoder's message.  A page comes without a background.
    pub fn from_decoded(decoded: Result<Vec<Layer>, String>) -> (loaded: Result<Page, PageError>)
        ensures
            match decoded {
                Ok(layers) => loaded is Ok && loaded->Ok_0@ == (PageView {
                    template: None,
                    layers: layers_view(layers@),
                }),
                Err(message) => loaded == Err::<Page, PageError>(PageError::Parse(message)),
            },
    {
        match decoded {
            Ok(layers) => Ok(Page { template: None, layers }),
            Err(message) => Err(PageError::Parse(message)),
        }
    }

    /// Makes a page of what reading its stroke file gave: the file's bytes,
    /// or the message of the failure to read it.  The bytes are decoded
    /// with `rm_lines`; a page comes without a background.
    pub fn load(read: Result<Vec<u8>, String>) -> (loaded: Result<Page, PageError>)
        ensures
            match read {
                Ok(bytes) => match decoded_page(bytes@) {
                    Ok(layers) => loaded is Ok && loaded->Ok_0@ == (PageView {
                        template: None,
                        layers,
                    }),
                    Err(message) => loaded matches Err(PageError::Parse(text)) && text@ == message,
                },
                Err(message) => loaded == Err::<Page, PageError>(PageError::Io(message)),
            },
    {
        match read {
            Ok(bytes) => Page::from_decoded(decode_layers(bytes.as_slice())),
            Err(message) => Err(PageError::Io(message)),
        }
    }

    /// Gives the page the background that reading the file at `path` gave.
    /// Where the file could not be read the page stays as it was.
    pub fn with_template(&mut self, path: &str, contents: Option<String>) -> (done: Result<
        (),
        TemplateError,
    >)
        ensures
            match contents {
                Some(text) => done is Ok && final(self)@ == (PageView {
                    template: Some(text@),
                    layers: old(self)@.layers,
                }),
                None => done is Err && done->Err_0.0@ == path@ && final(self)@ == old(self)@,
            },
    {
        match Template::load(path, contents) {
            Ok(template) => {
                self.template = Some(template);
                Ok(())
            },
            Err(error) => Err(error),
        }
    }

    /// The page's layers, bottom first.
    pub fn layers(&self) -> (layers: &Vec<Layer>)
        ensures
            layers_view(layers@) == self@.layers,
    {
        &self.layers
    }

    /// The page's background, if one was loaded.
    pub fn template(&self) -> (template: Option<&Template>)
        ensures
            match template {
                Some(image) => self@.template == Some(image@),
                None => self@.template is None,
            },
    {
        self.template.as_ref()
    }
}

} // verus!
