//! Identifiers of documents, folders and pages.

use vstd::prelude::*;

verus! {

/// The 128-bit number that names a document, a folder or a page.
#[derive(Clone, Copy, Debug, PartialEq, Eq, Hash, Structural)]
pub struct Identifier {
    pub value: u128,
}

/// The number that `uuid` reads from a text, where it reads one.
pub uninterp spec fn parsed_uuid(text: Seq<char>) -> Option<u128>;

/// The text that `uuid` writes for a number.
pub uninterp spec fn hyphenated_uuid(value: u128) -> Seq<char>;

/// Calls `uuid::Uuid::parse_str`, which takes a text of 32 hexadecimal
/// digits, plain or in five groups set apart by hyphens, the groups also in
/// braces or behind `urn:uuid:`.  Gives the number read, most significant
/// byte first, or nothing where the text has none of these forms.  The
/// result depends on the text alone.
#[verifier::external_body]
fn parse_uuid(text: &str) -> (value: Option<u128>)
    ensures
        value == parsed_uuid(text@),
{
    match uuid::Uuid::parse_str(text) {
        Ok(id) => Some(id.as_u128()),
        Err(_) => None,
    }
}

/// Calls `uuid::Uuid::from_u128` and the `to_string` of the result, which
/// writes the number as lower-case hexadecimal digits in five groups set
/// apart by hyphens.  The result depends on the number alone.
#[verifier::external_body]
fn write_uuid(value: u128) -> (text: String)
    ensures
        text@ == hyphenated_uuid(value),
{
    uuid::Uuid::from_u128(value).to_string()
}

impl Identifier {
    /// The identifier that a text spells, if it spells one.
    pub open spec fn spec_parse(text: Seq<char>) -> Option<Identifier> {
        match parsed_uuid(text) {
            Some(value) => Some(Identifier { value }),
            None => None,
        }
    }

    /// Reads an identifier from its text.  Gives nothing where the text is
    /// not a well-formed identifier.
    pub fn parse(text: &str) -> (id: Option<Identifier>)
        ensures
            id == Identifier::spec_parse(text@),
    {
        match parse_uuid(text) {
            Some(value) => Some(Identifier { value }),
            None => None,
        }
    }

    /// Writes the identifier as the tablet writes it in file names.
    pub fn hyphenated(&self) -> (text: String)
        ensures
            text@ == hyphenated_uuid(self.value),
    {
        write_uuid(self.value)
    }
}

} // verus!
