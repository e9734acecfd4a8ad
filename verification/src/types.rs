//! The kinds of values that the columns of the installer tables hold.

use vstd::prelude::*;
use vstd::string::*;
use crate::error::MsiBuilderError;
use crate::identifier::{Identifier, valid_identifier};
use crate::value::{Value, ValueView};

verus! {

/// Text that the installer expands (properties in brackets and the like).
pub type Formatted = String;

/// A conditional expression.
pub type Condition = String;

/// A GUID in braces.
pub type Guid = String;

/// A registry path.
pub type RegPath = String;

/// The source of a custom action.
pub type CustomSource = String;

/// The characters that a file name may not hold.
pub open spec fn is_filename_forbidden(c: char) -> bool {
    c == '\\' || c == '?' || c == '|' || c == '>' || c == '<' || c == ':' || c == '/'
        || c == '*' || c == '"'
}

/// The file name rule: between 1 and 255 characters, none of them one of
/// `\ ? | > < : / * "`.
pub open spec fn valid_filename(s: Seq<char>) -> bool {
    &&& 0 < s.len() <= crate::constants::FILENAME_MAX_LEN
    &&& forall|i: int| 0 <= i < s.len() ==> !is_filename_forbidden(#[trigger] s[i])
}

fn filename_forbidden(c: char) -> (r: bool)
    ensures
        r == is_filename_forbidden(c),
{
    c == '\\' || c == '?' || c == '|' || c == '>' || c == '<' || c == ':' || c == '/' || c == '*'
        || c == '"'
}

/// A name of a file or a directory on the target system.
#[derive(Debug, PartialEq)]
pub struct Filename {
    value: String,
}

impl Filename {
    #[verifier::type_invariant]
    spec fn inv(self) -> bool {
        valid_filename(self.value@)
    }
}

impl View for Filename {
    type V = Seq<char>;

    closed spec fn view(&self) -> Seq<char> {
        self.value@
    }
}

impl Clone for Filename {
    fn clone(&self) -> (r: Self)
        ensures
            r == *self,
            r@ == self@,
    {
        proof {
            use_type_invariant(self);
        }
        Filename { value: self.value.clone() }
    }
}

impl Filename {
    /// Parses `s` as a file name; fails exactly when `s` breaks the file name
    /// rule.
    pub fn strict_parse(s: &str) -> (r: Result<Filename, MsiBuilderError>)
        ensures
            r is Ok <==> valid_filename(s@),
            r matches Ok(f) ==> f@ == s@,
            r matches Err(e) ==> e is InvalidFilename,
    {
        let len = s.unicode_len();
        if len == 0 || len > crate::constants::FILENAME_MAX_LEN {
            return Err(MsiBuilderError::InvalidFilename);
        }
        let mut i: usize = 0;
        while i < len
            invariant
                len == s@.len(),
                i <= len,
                forall|k: int| 0 <= k < i ==> !is_filename_forbidden(#[trigger] s@[k]),
            decreases len - i,
        {
            if filename_forbidden(s.get_char(i)) {
                return Err(MsiBuilderError::InvalidFilename);
            }
            i = i + 1;
        }
        Ok(Filename { value: String::from_str(s) })
    }

    /// Makes a file name of a string already known to follow the rule.
    pub fn from_valid(s: String) -> (r: Filename)
        requires
            valid_filename(s@),
        ensures
            r@ == s@,
    {
        Filename { value: s }
    }

    /// Every file name follows the file name rule.
    pub fn check_valid(&self)
        ensures
            valid_filename(self@),
    {
        proof {
            use_type_invariant(self);
        }
    }

    /// The characters of the name.
    pub fn as_str(&self) -> (r: &str)
        ensures
            r@ == self@,
    {
        self.value.as_str()
    }

    /// The name as a string cell.
    pub fn to_value(&self) -> (r: Value)
        ensures
            r@ == ValueView::Str(self@),
    {
        Value::Str(self.value.clone())
    }
}

/// The name of a directory in the Directory table: a file name, or an
/// identifier for the root of the source tree.
#[derive(Debug, PartialEq)]
pub enum DefaultDir {
    Filename(Filename),
    Identifier(Identifier),
}

impl View for DefaultDir {
    type V = Seq<char>;

    open spec fn view(&self) -> Seq<char> {
        match self {
            DefaultDir::Filename(f) => f@,
            DefaultDir::Identifier(i) => i@,
        }
    }
}

impl Clone for DefaultDir {
    fn clone(&self) -> (r: Self)
        ensures
            r == (match self {
                DefaultDir::Filename(f) => DefaultDir::Filename(r->Filename_0),
                DefaultDir::Identifier(i) => DefaultDir::Identifier(r->Identifier_0),
            }),
            r@ == self@,
    {
        match self {
            DefaultDir::Filename(f) => DefaultDir::Filename(f.clone()),
            DefaultDir::Identifier(i) => DefaultDir::Identifier(i.clone()),
        }
    }
}

impl From<Filename> for DefaultDir {
    fn from(f: Filename) -> (r: DefaultDir) {
        DefaultDir::Filename(f)
    }
}

impl vstd::std_specs::convert::FromSpecImpl<Filename> for DefaultDir {
    open spec fn obeys_from_spec() -> bool {
        true
    }

    open spec fn from_spec(v: Filename) -> DefaultDir {
        DefaultDir::Filename(v)
    }
}

impl DefaultDir {
    /// The name as a string cell.
    pub fn to_value(&self) -> (r: Value)
        ensures
            r@ == ValueView::Str(self@),
    {
        match self {
            DefaultDir::Filename(f) => f.to_value(),
            DefaultDir::Identifier(i) => i.to_value(),
        }
    }

    /// Whether two names are of the same kind and hold the same characters.
    pub fn same(&self, other: &DefaultDir) -> (r: bool)
        ensures
            r == same_default_dir(*self, *other),
    {
        match (self, other) {
            (DefaultDir::Filename(a), DefaultDir::Filename(b)) => crate::text::str_eq(a.as_str(), b.as_str()),
            (DefaultDir::Identifier(a), DefaultDir::Identifier(b)) => a.same(b),
            _ => false,
        }
    }

    /// Whether the name holds exactly the characters of `s`.
    pub fn matches(&self, s: &str) -> (r: bool)
        ensures
            r == (self@ == s@),
    {
        match self {
            DefaultDir::Filename(f) => crate::text::str_eq(f.as_str(), s),
            DefaultDir::Identifier(i) => crate::text::str_eq(i.as_str(), s),
        }
    }
}

/// Whether two directory names are of the same kind and hold the same
/// characters.
pub open spec fn same_default_dir(a: DefaultDir, b: DefaultDir) -> bool {
    (a is Filename <==> b is Filename) && a@ == b@
}

/// What a shortcut points at: a formatted path to a file, or a feature.
pub enum Shortcut {
    Formatted(Formatted),
    Identifier(crate::tables::feature::FeatureIdentifier),
}

impl View for Shortcut {
    type V = Seq<char>;

    open spec fn view(&self) -> Seq<char> {
        match self {
            Shortcut::Formatted(f) => f@,
            Shortcut::Identifier(i) => i@,
        }
    }
}

impl Clone for Shortcut {
    fn clone(&self) -> (r: Self)
        ensures
            r@ == self@,
            r is Formatted <==> self is Formatted,
    {
        match self {
            Shortcut::Formatted(f) => Shortcut::Formatted(f.clone()),
            Shortcut::Identifier(i) => Shortcut::Identifier(i.clone()),
        }
    }
}

impl Shortcut {
    /// The target as a string cell.
    pub fn to_value(&self) -> (r: Value)
        ensures
            r@ == ValueView::Str(self@),
    {
        match self {
            Shortcut::Formatted(f) => Value::Str(f.clone()),
            Shortcut::Identifier(i) => i.0.to_value(),
        }
    }
}

} // verus!
