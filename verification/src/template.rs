//! Background images that are laid under a page's strokes.

use vstd::prelude::*;

verus! {

/// A template file that could not be read.  Holds the path of the file.
#[derive(Debug)]
pub struct TemplateError(pub String);

/// The source text of a vector image that fills a page's background.
#[derive(Clone, Debug)]
pub struct Template {
    contents: String,
}

impl View for Template {
    type V = Seq<char>;

    closed spec fn view(&self) -> Seq<char> {
        self.contents@
    }
}

/// Where the template called `name` lies in the directory `dir`.
pub open spec fn template_path(dir: Seq<char>, name: Seq<char>) -> Seq<char> {
    dir + seq!['/'] + name + seq!['.', 's', 'v', 'g']
}

/// Builds the path of the template called `name` in the directory `dir`:
/// the directory, a slash, the name and the extension `.svg`.
pub fn template_file(dir: &str, name: &str) -> (path: String)
    ensures
        path@ == template_path(dir@, name@),
{
    proof {
        reveal_strlit("/");
        reveal_strlit(".svg");
    }
    let path = String::from_str(dir).concat("/").concat(name).concat(".svg");
    assert(path@ =~= template_path(dir@, name@));
    path
}

impl Template {
    /// Makes a template of what reading the file at `path` gave: the file's
    /// text, or nothing where it could not be read.
    pub fn load(path: &str, contents: Option<String>) -> (loaded: Result<Template, TemplateError>)
        ensures
            match contents {
                Some(text) => loaded is Ok && loaded->Ok_0@ == text@,
                None => loaded is Err && loaded->Err_0.0@ == path@,
            },
    {
        match contents {
            Some(text) => Ok(Template { contents: text }),
            None => Err(TemplateError(String::from_str(path))),
        }
    }

    /// The image's source text.
    pub fn as_str(&self) -> (text: &str)
        ensures
            text@ == self@,
    {
        self.contents.as_str()
    }
}

} // verus!
