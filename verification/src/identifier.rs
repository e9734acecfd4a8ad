//! Identifiers: the keys by which the rows of the installer tables refer to
//! each other.

use vstd::prelude::*;
use vstd::string::*;
use crate::error::MsiBuilderError;
use crate::value::{Value, ValueView};

verus! {

/// A character that may start an identifier: an ASCII letter or `_`.
pub open spec fn is_identifier_start(c: char) -> bool {
    ('a' <= c && c <= 'z') || ('A' <= c && c <= 'Z') || c == '_'
}

/// A character that may appear in an identifier: an ASCII letter, an ASCII
/// digit, `_` or `.`.
pub open spec fn is_identifier_char(c: char) -> bool {
    is_identifier_start(c) || ('0' <= c && c <= '9') || c == '.'
}

/// The identifier rule: non-empty, starting with a letter or an underscore,
/// and made only of letters, digits, underscores and periods.
pub open spec fn valid_identifier(s: Seq<char>) -> bool {
    &&& s.len() > 0
    &&& is_identifier_start(s[0])
    &&& forall|i: int| 0 <= i < s.len() ==> is_identifier_char(#[trigger] s[i])
}

fn identifier_start(c: char) -> (r: bool)
    ensures
        r == is_identifier_start(c),
{
    ('a' <= c && c <= 'z') || ('A' <= c && c <= 'Z') || c == '_'
}

fn identifier_char(c: char) -> (r: bool)
    ensures
        r == is_identifier_char(c),
{
    identifier_start(c) || ('0' <= c && c <= '9') || c == '.'
}

/// Whether `s` follows the identifier rule.
pub fn is_valid_identifier(s: &str) -> (r: bool)
    ensures
        r == valid_identifier(s@),
{
    let len = s.unicode_len();
    if len == 0 {
        return false;
    }
    if !identifier_start(s.get_char(0)) {
        return false;
    }
    let mut i: usize = 0;
    while i < len
        invariant
            len == s@.len(),
            i <= len,
            forall|k: int| 0 <= k < i ==> is_identifier_char(#[trigger] s@[k]),
        decreases len - i,
    {
        if !identifier_char(s.get_char(i)) {
            return false;
        }
        i = i + 1;
    }
    true
}

/// A string that follows the identifier rule.
#[derive(Debug, PartialEq)]
pub struct Identifier {
    value: String,
}

impl Identifier {
    #[verifier::type_invariant]
    spec fn inv(self) -> bool {
        valid_identifier(self.value@)
    }
}

impl View for Identifier {
    type V = Seq<char>;

    closed spec fn view(&self) -> Seq<char> {
        self.value@
    }
}

impl Clone for Identifier {
    fn clone(&self) -> (r: Self)
        ensures
            r@ == self@,
    {
        proof {
            use_type_invariant(self);
        }
        Identifier { value: self.value.clone() }
    }
}

impl Identifier {
    /// Every identifier follows the identifier rule.
    pub fn check_valid(&self)
        ensures
            valid_identifier(self@),
    {
        proof {
            use_type_invariant(self);
        }
    }

    /// Parses `s` as an identifier; fails exactly when `s` breaks the
    /// identifier rule.
    pub fn from_str(s: &str) -> (r: Result<Identifier, MsiBuilderError>)
        ensures
            r is Ok <==> valid_identifier(s@),
            r matches Ok(id) ==> id@ == s@,
            r matches Err(e) ==> e is InvalidIdentifier,
    {
        if is_valid_identifier(s) {
            Ok(Identifier { value: String::from_str(s) })
        } else {
            Err(MsiBuilderError::InvalidIdentifier)
        }
    }

    /// Makes an identifier of a string already known to follow the rule.
    pub fn from_valid(s: String) -> (r: Identifier)
        requires
            valid_identifier(s@),
        ensures
            r@ == s@,
    {
        Identifier { value: s }
    }

    /// The characters of the identifier.
    pub fn as_str(&self) -> (r: &str)
        ensures
            r@ == self@,
    {
        self.value.as_str()
    }

    /// The identifier as an owned string.
    pub fn to_string(&self) -> (r: String)
        ensures
            r@ == self@,
    {
        self.value.clone()
    }

    /// The identifier as a string cell.
    pub fn to_value(&self) -> (r: Value)
        ensures
            r@ == ValueView::Str(self@),
    {
        Value::Str(self.value.clone())
    }

    /// Whether two identifiers are the same.
    pub fn same(&self, other: &Identifier) -> (r: bool)
        ensures
            r == (self@ == other@),
    {
        self.value == other.value
    }
}

/// The cell for an optional identifier.
pub open spec fn opt_id_view(id: Option<Identifier>) -> ValueView {
    match id {
        Some(id) => ValueView::Str(id@),
        None => ValueView::Null,
    }
}

/// A string cell for an identifier, or a null cell when there is none.
pub fn opt_id_value(id: &Option<Identifier>) -> (r: Value)
    ensures
        r@ == opt_id_view(*id),
{
    match id {
        Some(id) => id.to_value(),
        None => Value::Null,
    }
}

/// The key of the Directory table.
pub type DirectoryIdentifier = Identifier;

/// The key of the File table.
pub type FileIdentifier = Identifier;

/// The key of the Component table.
pub type ComponentIdentifier = Identifier;

/// The key of the Icon table.
pub type IconIdentifier = Identifier;

/// The key of the Shortcut table.
pub type ShortcutIdentifier = Identifier;

/// The key of the ServiceInstall table.
pub type ServiceInstallIdentifier = Identifier;

/// The key of the ServiceControl table.
pub type ServiceControlIdentifier = Identifier;

/// The key of the Registry table.
pub type RegistryIdentifier = Identifier;

/// The key of the Signature table.
pub type SignatureIdentifier = Identifier;

/// The key of the Binary table.
pub type BinaryIdentifier = Identifier;

/// The name of a cabinet stream.
pub type CabinetIdentifier = Identifier;

} // verus!
