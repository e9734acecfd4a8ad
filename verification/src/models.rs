//! The source tree that goes into a package: directories found on the
//! building machine, each with the files and directories inside it, every
//! one of them under a fresh identifier.

use vstd::prelude::*;
use vstd::string::*;
use crate::error::MsiBuilderError;
use crate::identifier::{Identifier, valid_identifier};
use crate::text::push_char;
use crate::resolve::path_components;
use crate::builder::path_file_name;
use crate::resolve::{portable_path, path_components_spec};

verus! {

/// A lowercase hexadecimal digit.
pub open spec fn is_lower_hex(c: char) -> bool {
    ('0' <= c && c <= '9') || ('a' <= c && c <= 'f')
}

/// The lowercase hexadecimal digit of `n`, for `0 <= n < 16`.
pub open spec fn hex_digit(n: int) -> char {
    if n < 10 {
        if n < 5 {
            if n == 0 { '0' } else if n == 1 { '1' } else if n == 2 { '2' } else if n == 3 { '3' } else { '4' }
        } else {
            if n == 5 { '5' } else if n == 6 { '6' } else if n == 7 { '7' } else if n == 8 { '8' } else { '9' }
        }
    } else {
        if n == 10 { 'a' } else if n == 11 { 'b' } else if n == 12 { 'c' } else if n == 13 { 'd' } else if n == 14 { 'e' } else { 'f' }
    }
}

/// Byte `j` of the version 4 UUID made of the random bytes `b`: the high
/// half of byte 6 is the version, 4, and the two high bits of byte 8 are
/// the variant, `10`; every other byte is taken as it is.
pub open spec fn uuid_v4_byte(b: Seq<u8>, j: int) -> int {
    if j == 6 {
        b[6] as int % 16 + 64
    } else if j == 8 {
        b[8] as int % 64 + 128
    } else {
        b[j] as int
    }
}

/// The simple form of the version 4 UUID made of the random bytes `b`: 32
/// lowercase hexadecimal digits, two for each byte, the high half first.
pub open spec fn uuid_v4_simple(b: Seq<u8>) -> Seq<char> {
    Seq::new(32, |i: int| if i % 2 == 0 {
        hex_digit(uuid_v4_byte(b, i / 2) / 16)
    } else {
        hex_digit(uuid_v4_byte(b, i / 2) % 16)
    })
}

/// `getrandom::fill` on a 16-byte buffer: the bytes of the system's random
/// source, or `None` where the source fails. Which bytes come back is left
/// open: they are random.
#[verifier::external_body]
fn random_bytes() -> (r: Option<[u8; 16]>)
{
    let mut bytes = [0u8; 16];
    match getrandom::fill(&mut bytes) {
        Ok(()) => Some(bytes),
        Err(_) => None,
    }
}

/// `uuid::Builder::from_random_bytes(bytes).into_uuid().simple().to_string()`:
/// the crate sets the version and variant bits of `bytes` and writes the 16
/// bytes as 32 lowercase hexadecimal digits, the high half of each byte
/// first.
#[verifier::external_body]
fn uuid_simple_from_random(bytes: [u8; 16]) -> (s: String)
    ensures
        s@ == uuid_v4_simple(bytes@),
{
    uuid::Builder::from_random_bytes(bytes).into_uuid().simple().to_string()
}

/// The identifier made of the random bytes `bytes`: `_` followed by the
/// simple form of the version 4 UUID that they make, so that it never
/// starts with a digit.
pub fn identifier_from_random(bytes: [u8; 16]) -> (r: Identifier)
    ensures
        r@ == seq!['_'] + uuid_v4_simple(bytes@),
        fresh_key_form(r@),
        valid_identifier(r@),
{
    let digits = uuid_simple_from_random(bytes);
    let ghost expected = uuid_v4_simple(bytes@);
    let mut s = String::new();
    push_char(&mut s, '_');
    let d: &str = digits.as_str();
    let n = d.unicode_len();
    let mut i: usize = 0;
    while i < n
        invariant
            n == d@.len(),
            d@ == digits@,
            digits@ == expected,
            expected.len() == 32,
            i <= n,
            s@.len() == i + 1,
            s@[0] == '_',
            forall|k: int| 1 <= k < i + 1 ==> s@[k] == expected[k - 1],
        decreases n - i,
    {
        push_char(&mut s, d.get_char(i));
        i = i + 1;
    }
    assert(s@ =~= seq!['_'] + expected);
    assert forall|k: int| 1 <= k < 33 implies is_lower_hex(#[trigger] s@[k]) by {
        assert(s@[k] == expected[k - 1]);
    }
    assert forall|k: int| 0 <= k < s@.len() implies #[trigger] crate::identifier::is_identifier_char(s@[k]) by {
        if k > 0 {
            assert(is_lower_hex(s@[k]));
        }
    }
    Identifier::from_valid(s)
}

/// A fresh identifier: `_` followed by the simple form of a random version
/// 4 UUID. Fails with `RandomUnavailable` when the system gives no random
/// bytes.
pub fn new_identifier() -> (r: Result<Identifier, MsiBuilderError>)
    ensures
        r matches Ok(id) ==> {
            &&& fresh_key_form(id@)
            &&& valid_identifier(id@)
            &&& exists|b: Seq<u8>| b.len() == 16 && id@ == seq!['_'] + #[trigger] uuid_v4_simple(b)
        },
        r matches Err(e) ==> e is RandomUnavailable,
{
    match random_bytes() {
        Some(bytes) => Ok(identifier_from_random(bytes)),
        None => Err(MsiBuilderError::RandomUnavailable),
    }
}

/// The form of a fresh key: `_` followed by 32 lowercase hexadecimal
/// digits.
pub open spec fn fresh_key_form(s: Seq<char>) -> bool {
    &&& s.len() == 33
    &&& s[0] == '_'
    &&& forall|i: int| 1 <= i < 33 ==> is_lower_hex(#[trigger] s[i])
}

/// What a file of the source tree holds.
pub struct MsiFileView {
    pub component_id: Seq<char>,
    pub file_id: Seq<char>,
    pub source: Seq<char>,
    pub name: Seq<char>,
    pub size: u64,
    pub vital: bool,
    pub version: Option<Seq<char>>,
    pub language: Option<Seq<char>>,
}

/// A file to be copied from the package to the target system.
///
/// - `component_id`: the component that controls the file.
/// - `file_id`: the file's own key.
/// - `source`: where the file lies on the building machine.
/// - `name`: the name of the file once installed.
/// - `size`: its size in bytes.
/// - `vital`: whether the whole install fails when this file fails.
/// - `version`, `language`: for versioned files.
#[derive(Debug)]
pub struct MsiFile {
    component_id: Identifier,
    file_id: Identifier,
    source: String,
    name: String,
    size: u64,
    vital: bool,
    version: Option<String>,
    language: Option<String>,
}

/// The characters of an optional string.
pub open spec fn opt_view(s: Option<String>) -> Option<Seq<char>> {
    match s {
        Some(s) => Some(s@),
        None => None,
    }
}

fn copy_opt(s: &Option<String>) -> (r: Option<String>)
    ensures
        opt_view(r) == opt_view(*s),
{
    match s {
        Some(s) => Some(s.clone()),
        None => None,
    }
}

impl View for MsiFile {
    type V = MsiFileView;

    closed spec fn view(&self) -> MsiFileView {
        MsiFileView {
            component_id: self.component_id@,
            file_id: self.file_id@,
            source: self.source@,
            name: self.name@,
            size: self.size,
            vital: self.vital,
            version: opt_view(self.version),
            language: opt_view(self.language),
        }
    }
}

impl Clone for MsiFile {
    fn clone(&self) -> (r: Self)
        ensures
            r@ == self@,
    {
        MsiFile {
            component_id: self.component_id.clone(),
            file_id: self.file_id.clone(),
            source: self.source.clone(),
            name: self.name.clone(),
            size: self.size,
            vital: self.vital,
            version: copy_opt(&self.version),
            language: copy_opt(&self.language),
        }
    }
}

impl MsiFile {
    /// The file that lies at `source` on the building machine and holds
    /// `size` bytes, under the given component and file keys: installed
    /// under its file name (the last component of `source`), not vital, with
    /// no version or language. Fails with `NoFileName` when `source` ends
    /// with no name (no component, or `.`, `..` or the root alone). The
    /// name is stated for paths that every platform reads alike.
    pub fn with_keys(component_id: Identifier, file_id: Identifier, source: &str, size: u64) -> (r: Result<MsiFile, MsiBuilderError>)
        ensures
            r matches Err(e) ==> e is NoFileName,
            r matches Ok(f) ==> {
                &&& f@.component_id == component_id@
                &&& f@.file_id == file_id@
                &&& f@.source == source@
                &&& f@.size == size
                &&& !f@.vital
                &&& f@.version is None
                &&& f@.language is None
            },
            portable_path(source@) ==> match path_file_name(source@) {
                None => r is Err,
                Some(name) => r matches Ok(f) && f@.name == name,
            },
    {
        let components = path_components(source);
        let n = components.len();
        if n == 0 {
            return Err(MsiBuilderError::NoFileName);
        }
        let name = components[n - 1].as_str();
        proof {
            reveal_strlit(".");
            reveal_strlit("..");
            reveal_strlit("/");
            assert("."@ =~= seq!['.']);
            assert(".."@ =~= seq!['.', '.']);
            assert("/"@ =~= seq!['/']);
            if portable_path(source@) {
                assert(path_components_spec(source@).last() == name@);
            }
        }
        if crate::text::str_eq(name, ".") || crate::text::str_eq(name, "..") || crate::text::str_eq(name, "/") {
            return Err(MsiBuilderError::NoFileName);
        }
        Ok(MsiFile {
            component_id,
            file_id,
            source: String::from_str(source),
            name: String::from_str(name),
            size,
            vital: false,
            version: None,
            language: None,
        })
    }

    /// The file that lies at `source` on the building machine and holds
    /// `size` bytes, as `with_keys` makes it, under a fresh component key and
    /// a fresh file key. Fails with `NoFileName` as `with_keys` does, and
    /// with `RandomUnavailable` when the system gives no random bytes for
    /// the keys.
    pub fn new(source: &str, size: u64) -> (r: Result<MsiFile, MsiBuilderError>)
        ensures
            r matches Err(e) ==> e is NoFileName || e is RandomUnavailable,
            r matches Ok(f) ==> {
                &&& f@.source == source@
                &&& f@.size == size
                &&& !f@.vital
                &&& f@.version is None
                &&& f@.language is None
                &&& fresh_key_form(f@.component_id)
                &&& fresh_key_form(f@.file_id)
            },
            portable_path(source@) ==> match path_file_name(source@) {
                None => r is Err,
                Some(name) => {
                    &&& r matches Ok(f) ==> f@.name == name
                    &&& r matches Err(e) ==> e is RandomUnavailable
                },
            },
    {
        let component_id = new_identifier()?;
        let file_id = new_identifier()?;
        MsiFile::with_keys(component_id, file_id, source, size)
    }

    /// The component that controls the file.
    pub fn component_id(&self) -> (r: &Identifier)
        ensures
            r@ == self@.component_id,
    {
        &self.component_id
    }

    /// The file's key.
    pub fn file_id(&self) -> (r: &Identifier)
        ensures
            r@ == self@.file_id,
    {
        &self.file_id
    }

    /// Where the file lies on the building machine.
    pub fn source(&self) -> (r: &String)
        ensures
            r@ == self@.source,
    {
        &self.source
    }

    /// The installed name.
    pub fn name(&self) -> (r: &String)
        ensures
            r@ == self@.name,
    {
        &self.name
    }

    /// The size in bytes.
    pub fn size(&self) -> (r: u64)
        ensures
            r == self@.size,
    {
        self.size
    }

    /// Whether the install fails when this file fails.
    pub fn vital(&self) -> (r: bool)
        ensures
            r == self@.vital,
    {
        self.vital
    }
}

/// What a directory of the source tree holds, with everything inside it.
pub struct MsiDirectoryView {
    pub id: Seq<char>,
    pub parent_id: Option<Seq<char>>,
    pub name: Seq<char>,
    pub source: Option<Seq<char>>,
    pub files: Seq<MsiFileView>,
    pub directories: Seq<MsiDirectoryView>,
}

/// A directory that the package creates on the target system.
///
/// - `id`: the directory's key.
/// - `parent_id`: the key of the directory that holds it; a key rather than
///   a path, since the parent may be a system folder such as `TARGETDIR`.
/// - `name`: the name of the directory on the target system.
/// - `source`: where it lies on the building machine, where it has a source.
/// - `files`, `directories`: what it holds directly.
#[derive(Debug)]
pub struct MsiDirectory {
    id: Identifier,
    parent_id: Option<String>,
    name: String,
    source: Option<String>,
    files: Vec<MsiFile>,
    directories: Vec<MsiDirectory>,
}

/// The views of a list of files.
pub open spec fn file_views(s: Seq<MsiFile>) -> Seq<MsiFileView> {
    s.map_values(|f: MsiFile| f@)
}

/// The view of a directory, with the views of all it holds.
pub closed spec fn directory_view(d: MsiDirectory) -> MsiDirectoryView
    decreases d, 1int,
{
    proof {
        assert(decreases_to!(d.directories => d.directories@));
    }
    MsiDirectoryView {
        id: d.id@,
        parent_id: opt_view(d.parent_id),
        name: d.name@,
        source: opt_view(d.source),
        files: file_views(d.files@),
        directories: directory_views(d.directories@),
    }
}

/// The views of a list of directories.
pub closed spec fn directory_views(s: Seq<MsiDirectory>) -> Seq<MsiDirectoryView>
    decreases s, 0int,
{
    if s.len() == 0 {
        Seq::empty()
    } else {
        proof {
            assert(decreases_to!(s => s[s.len() - 1]));
            assert(decreases_to!(s => s.subrange(0, s.len() - 1)));
        }
        directory_views(s.subrange(0, s.len() - 1)).push(directory_view(s[s.len() - 1]))
    }
}

impl View for MsiDirectory {
    type V = MsiDirectoryView;

    open spec fn view(&self) -> MsiDirectoryView {
        directory_view(*self)
    }
}

/// The views of a list of directories, one for one.
proof fn lemma_directory_views(s: Seq<MsiDirectory>)
    ensures
        directory_views(s).len() == s.len(),
        forall|i: int| 0 <= i < s.len() ==> #[trigger] directory_views(s)[i] == s[i]@,
    decreases s.len(),
{
    if s.len() > 0 {
        lemma_directory_views(s.subrange(0, s.len() - 1));
    }
}

/// What a directory's view says of its fields.
proof fn lemma_directory_view(d: MsiDirectory)
    ensures
        d@.id == d.id@,
        d@.parent_id == opt_view(d.parent_id),
        d@.name == d.name@,
        d@.source == opt_view(d.source),
        d@.files == file_views(d.files@),
        d@.directories.len() == d.directories@.len(),
        forall|i: int| 0 <= i < d.directories@.len() ==> #[trigger] d@.directories[i] == d.directories@[i]@,
{
    lemma_directory_views(d.directories@);
}

/// Every directory below `d`, at any depth: first those that `d` holds
/// directly, then, for each of them in turn, every directory below it.
pub open spec fn directories_below(d: MsiDirectoryView) -> Seq<MsiDirectoryView>
    decreases d, 1int,
{
    d.directories + directories_below_all(d.directories)
}

/// Every directory below each of `s`, one after the other.
pub open spec fn directories_below_all(s: Seq<MsiDirectoryView>) -> Seq<MsiDirectoryView>
    decreases s, 0int,
{
    if s.len() == 0 {
        Seq::empty()
    } else {
        proof {
            assert(decreases_to!(s => s[s.len() - 1]));
            assert(decreases_to!(s => s.subrange(0, s.len() - 1)));
        }
        directories_below_all(s.subrange(0, s.len() - 1)) + directories_below(s[s.len() - 1])
    }
}

/// Every file at any depth below `d`: first those that `d` holds directly,
/// then, for each directory that it holds in turn, every file below it.
pub open spec fn files_below(d: MsiDirectoryView) -> Seq<MsiFileView>
    decreases d, 1int,
{
    d.files + files_below_all(d.directories)
}

/// Every file below each of `s`, one after the other.
pub open spec fn files_below_all(s: Seq<MsiDirectoryView>) -> Seq<MsiFileView>
    decreases s, 0int,
{
    if s.len() == 0 {
        Seq::empty()
    } else {
        proof {
            assert(decreases_to!(s => s[s.len() - 1]));
            assert(decreases_to!(s => s.subrange(0, s.len() - 1)));
        }
        files_below_all(s.subrange(0, s.len() - 1)) + files_below(s[s.len() - 1])
    }
}


/// The views of a list of directories, taken one by one.
pub open spec fn views_of(s: Seq<MsiDirectory>) -> Seq<MsiDirectoryView> {
    s.map_values(|d: MsiDirectory| d@)
}

impl Clone for MsiDirectory {
    fn clone(&self) -> (r: Self)
        ensures
            r@ == self@,
    {
        self.copy()
    }
}

fn copy_files(files: &Vec<MsiFile>) -> (r: Vec<MsiFile>)
    ensures
        file_views(r@) == file_views(files@),
{
    let mut r: Vec<MsiFile> = Vec::new();
    let mut i: usize = 0;
    while i < files.len()
        invariant
            i <= files.len(),
            r@.len() == i,
            forall|k: int| 0 <= k < i ==> #[trigger] r@[k]@ == files@[k]@,
        decreases files.len() - i,
    {
        r.push(files[i].clone());
        i = i + 1;
    }
    assert(file_views(r@) =~= file_views(files@));
    r
}

impl MsiDirectory {
    /// A copy of the directory and of everything it holds.
    fn copy(&self) -> (r: MsiDirectory)
        ensures
            r@ == self@,
        decreases self,
    {
        let mut dirs: Vec<MsiDirectory> = Vec::new();
        let mut j: usize = 0;
        while j < self.directories.len()
            invariant
                j <= self.directories.len(),
                dirs@.len() == j,
                forall|k: int| 0 <= k < j ==> #[trigger] dirs@[k]@ == self.directories@[k]@,
            decreases self.directories.len() - j,
        {
            proof {
                assert(decreases_to!(self.directories => self.directories[j as int]));
            }
            let d = self.directories[j].copy();
            dirs.push(d);
            j = j + 1;
        }
        let r = MsiDirectory {
            id: self.id.clone(),
            parent_id: copy_opt(&self.parent_id),
            name: self.name.clone(),
            source: copy_opt(&self.source),
            files: copy_files(&self.files),
            directories: dirs,
        };
        proof {
            lemma_directory_views(dirs@);
            lemma_directory_views(self.directories@);
            assert(directory_views(dirs@) =~= directory_views(self.directories@));
        }
        r
    }

    /// The directory keyed `id` that lies at `source` on the building
    /// machine, inside the directory keyed `parent_id`, and holds
    /// `directories` and `files`. It is named after the last component of
    /// `source`; fails with `NoDirectoryName` when that path ends with no
    /// name (no component, or `.`, `..` or the root alone). The name is stated for paths
    /// that every platform reads alike.
    pub fn new(
        id: Identifier,
        parent_id: &str,
        source: &str,
        directories: Vec<MsiDirectory>,
        files: Vec<MsiFile>,
    ) -> (r: Result<MsiDirectory, MsiBuilderError>)
        ensures
            r matches Err(e) ==> e is NoDirectoryName,
            r matches Ok(d) ==> {
                &&& d@.id == id@
                &&& d@.parent_id == Some(parent_id@)
                &&& d@.source == Some(source@)
                &&& d@.files == file_views(files@)
                &&& d@.directories == views_of(directories@)
            },
            portable_path(source@) ==> match path_file_name(source@) {
                None => r is Err,
                Some(name) => r matches Ok(d) && d@.name == name,
            },
    {
        let components = path_components(source);
        let n = components.len();
        if n == 0 {
            return Err(MsiBuilderError::NoDirectoryName);
        }
        let name = components[n - 1].as_str();
        proof {
            reveal_strlit(".");
            reveal_strlit("..");
            reveal_strlit("/");
            assert("."@ =~= seq!['.']);
            assert(".."@ =~= seq!['.', '.']);
            assert("/"@ =~= seq!['/']);
            if portable_path(source@) {
                assert(path_components_spec(source@).last() == name@);
            }
        }
        if crate::text::str_eq(name, ".") || crate::text::str_eq(name, "..") || crate::text::str_eq(name, "/") {
            return Err(MsiBuilderError::NoDirectoryName);
        }
        let d = MsiDirectory {
            id,
            parent_id: Some(String::from_str(parent_id)),
            name: String::from_str(name),
            source: Some(String::from_str(source)),
            files,
            directories,
        };
        proof {
            lemma_directory_view(d);
            assert(d@.directories =~= views_of(directories@));
        }
        Ok(d)
    }

    /// Every directory below this one, at any depth, copied: first those
    /// that it holds directly, then, for each of them in turn, every
    /// directory below it.
    pub fn flatten_directories(&self) -> (r: Vec<MsiDirectory>)
        ensures
            views_of(r@) == directories_below(self@),
        decreases self,
    {
        let ghost v = self@;
        proof {
            lemma_directory_view(*self);
        }
        let mut dirs: Vec<MsiDirectory> = Vec::new();
        let mut i: usize = 0;
        while i < self.directories.len()
            invariant
                i <= self.directories.len(),
                dirs@.len() == i,
                forall|k: int| 0 <= k < i ==> #[trigger] dirs@[k]@ == self.directories@[k]@,
            decreases self.directories.len() - i,
        {
            dirs.push(self.directories[i].clone());
            i = i + 1;
        }
        assert(views_of(dirs@) =~= v.directories);
        let mut j: usize = 0;
        while j < self.directories.len()
            invariant
                j <= self.directories.len(),
                v == self@,
                v.directories == views_of(self.directories@),
                views_of(dirs@) == v.directories + directories_below_all(v.directories.subrange(0, j as int)),
            decreases self.directories.len() - j,
        {
            proof {
                assert(decreases_to!(self.directories => self.directories[j as int]));
            }
            let mut sub = self.directories[j].flatten_directories();
            let ghost before = dirs@;
            let ghost added = sub@;
            dirs.append(&mut sub);
            proof {
                let next = v.directories.subrange(0, j + 1);
                assert(next.subrange(0, j as int) =~= v.directories.subrange(0, j as int));
                assert(next[j as int] == self.directories@[j as int]@);
                assert(views_of(dirs@) =~= views_of(before) + views_of(added));
            }
            j = j + 1;
        }
        assert(v.directories.subrange(0, v.directories.len() as int) =~= v.directories);
        dirs
    }

    /// Every file below this directory, at any depth, copied: first those
    /// that it holds directly, then, for each directory that it holds in
    /// turn, every file below it.
    pub fn flatten_files(&self) -> (r: Vec<MsiFile>)
        ensures
            file_views(r@) == files_below(self@),
        decreases self,
    {
        let ghost v = self@;
        proof {
            lemma_directory_view(*self);
        }
        let mut files = copy_files(&self.files);
        let mut j: usize = 0;
        while j < self.directories.len()
            invariant
                j <= self.directories.len(),
                v == self@,
                v.directories == views_of(self.directories@),
                file_views(files@) == v.files + files_below_all(v.directories.subrange(0, j as int)),
            decreases self.directories.len() - j,
        {
            proof {
                assert(decreases_to!(self.directories => self.directories[j as int]));
            }
            let mut sub = self.directories[j].flatten_files();
            let ghost before = files@;
            let ghost added = sub@;
            files.append(&mut sub);
            proof {
                let next = v.directories.subrange(0, j + 1);
                assert(next.subrange(0, j as int) =~= v.directories.subrange(0, j as int));
                assert(next[j as int] == self.directories@[j as int]@);
                assert(file_views(files@) =~= file_views(before) + file_views(added));
            }
            j = j + 1;
        }
        assert(v.directories.subrange(0, v.directories.len() as int) =~= v.directories);
        files
    }

    /// The directory's key.
    pub fn id(&self) -> (r: &Identifier)
        ensures
            r@ == self@.id,
    {
        proof {
            lemma_directory_view(*self);
        }
        &self.id
    }

    /// The key of the directory that holds this one.
    pub fn parent_id(&self) -> (r: &Option<String>)
        ensures
            opt_view(*r) == self@.parent_id,
    {
        proof {
            lemma_directory_view(*self);
        }
        &self.parent_id
    }

    /// The name on the target system.
    pub fn name(&self) -> (r: &String)
        ensures
            r@ == self@.name,
    {
        proof {
            lemma_directory_view(*self);
        }
        &self.name
    }

    /// Where the directory lies on the building machine.
    pub fn source(&self) -> (r: &Option<String>)
        ensures
            opt_view(*r) == self@.source,
    {
        proof {
            lemma_directory_view(*self);
        }
        &self.source
    }

    /// The files that this directory holds directly.
    pub fn files(&self) -> (r: &Vec<MsiFile>)
        ensures
            file_views(r@) == self@.files,
    {
        proof {
            lemma_directory_view(*self);
        }
        &self.files
    }

    /// The directories that this directory holds directly.
    pub fn directories(&self) -> (r: &Vec<MsiDirectory>)
        ensures
            views_of(r@) == self@.directories,
    {
        proof {
            lemma_directory_view(*self);
            assert(views_of(self.directories@) =~= self@.directories);
        }
        &self.directories
    }
}

} // verus!
