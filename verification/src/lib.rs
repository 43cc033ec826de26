//! Model of a tablet notebook and the rules that turn it into a paginated
//! vector drawing.
//!
//! Nothing here touches a file or a drawing backend.  Loading takes what was
//! read from the notebook's files and yields typed entities; rendering yields
//! a [`RenderPlan`] that lists, page by page and layer by layer, what a
//! backend has to draw.

pub mod doc;
pub mod ident;
pub mod layout;
pub mod meta;
pub mod page;
pub mod render;
pub mod stroke;
pub mod template;
pub mod text;

pub use doc::{
    Collection, CollectionError, Document, DocumentError, DocumentLoader, Entry, EntryError,
    Resolution,
};
pub use ident::Identifier;
pub use layout::Layout;
pub use meta::{ContentData, ContentDataError, MetaData, MetaDataError, PageData, PageDataError};
pub use page::{Page, PageError};
pub use render::{LayerPlan, PagePlan, PathPlan, RenderError, RenderPlan};
pub use stroke::{Color, Layer, Line, Point, Rgb};
pub use template::{Template, TemplateError};
