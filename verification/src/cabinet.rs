//! The cabinets stored inside a package, and the files each one carries.

use vstd::prelude::*;
use crate::identifier::{CabinetIdentifier, FileIdentifier, Identifier};
use crate::tables::dao::{DaoContainer, MsiBuilderListEntry, ToUniqueMsiIdentifier};

verus! {

/// A file to be packed into a cabinet: its key in the File table and where
/// its contents are read from.
pub struct CabinetFile {
    pub id: FileIdentifier,
    pub path: String,
}

/// A cabinet: its identifier, which is also the name of its stream, and the
/// files it carries, in the order of their sequence numbers.
pub struct CabinetInfo {
    pub id: CabinetIdentifier,
    pub files: Vec<CabinetFile>,
}

impl CabinetInfo {
    /// An empty cabinet.
    pub fn new(id: CabinetIdentifier) -> (r: CabinetInfo)
        ensures
            r.id == id,
            r.files@.len() == 0,
    {
        CabinetInfo { id, files: Vec::new() }
    }

    /// Appends a file to the cabinet.
    pub fn add_file(&mut self, id: FileIdentifier, path: String)
        ensures
            final(self).id == old(self).id,
            final(self).files@ == old(self).files@.push(CabinetFile { id, path }),
    {
        self.files.push(CabinetFile { id, path });
    }
}

impl MsiBuilderListEntry for CabinetInfo {
    /// Two cabinets conflict when they have the same identifier.
    open spec fn conflicts_spec(&self, other: &Self) -> bool {
        self.id@ == other.id@
    }

    fn conflicts(&self, other: &Self) -> (r: bool) {
        self.id.same(&other.id)
    }
}

impl ToUniqueMsiIdentifier for CabinetInfo {
    open spec fn unique_id_spec(&self) -> Option<Seq<char>> {
        Some(self.id@)
    }

    fn to_unique_msi_identifier(&self) -> (r: Option<Identifier>) {
        Some(self.id.clone())
    }
}

/// The position of the first cabinet of `s` with identifier `id`.
pub open spec fn cabinet_index(s: Seq<CabinetInfo>, id: Seq<char>) -> Option<int>
    decreases s.len(),
{
    if s.len() == 0 {
        None
    } else {
        match cabinet_index(s.drop_last(), id) {
            Some(i) => Some(i),
            None => if s.last().id@ == id { Some(s.len() - 1) } else { None },
        }
    }
}

/// Where `cabinet_index` points, a cabinet with that identifier stands,
/// and none stands before it.
pub proof fn lemma_cabinet_index(s: Seq<CabinetInfo>, id: Seq<char>)
    ensures
        match cabinet_index(s, id) {
            Some(i) => 0 <= i < s.len() && s[i].id@ == id && forall|k: int| 0 <= k < i ==> (#[trigger] s[k]).id@ != id,
            None => forall|k: int| 0 <= k < s.len() ==> (#[trigger] s[k]).id@ != id,
        },
    decreases s.len(),
{
    if s.len() > 0 {
        lemma_cabinet_index(s.drop_last(), id);
        assert forall|k: int| 0 <= k < s.len() - 1 implies s[k] == s.drop_last()[k] by {}
    }
}

/// The cabinets of a package.
pub struct Cabinets {
    entries: Vec<CabinetInfo>,
}

impl Cabinets {
    /// No cabinets.
    pub fn new() -> (r: Cabinets)
        ensures
            r.entries_spec() == Seq::<CabinetInfo>::empty(),
    {
        Cabinets { entries: Vec::new() }
    }

    /// The first cabinet with the identifier `id`.
    pub fn find_id(&self, id: &str) -> (r: Option<&CabinetInfo>)
        ensures
            match cabinet_index(self.entries_spec(), id@) {
                Some(i) => r == Some(&self.entries_spec()[i]),
                None => r is None,
            },
    {
        proof {
            lemma_cabinet_index(self.entries@, id@);
        }
        let mut i: usize = 0;
        while i < self.entries.len()
            invariant
                i <= self.entries@.len(),
                forall|k: int| 0 <= k < i ==> (#[trigger] self.entries@[k]).id@ != id@,
            decreases self.entries@.len() - i,
        {
            if crate::text::str_eq(self.entries[i].id.as_str(), id) {
                proof {
                    lemma_cabinet_index(self.entries@, id@);
                }
                return Some(&self.entries[i]);
            }
            i = i + 1;
        }
        proof {
            lemma_cabinet_index(self.entries@, id@);
        }
        None
    }

    /// Appends a file to the first cabinet with the identifier `cabinet` and
    /// returns the number of files that cabinet then carries; returns `None`,
    /// changing nothing, when there is no such cabinet.
    pub fn add_file(&mut self, cabinet: &str, id: FileIdentifier, path: String) -> (r: Option<usize>)
        ensures
            match cabinet_index(old(self).entries_spec(), cabinet@) {
                Some(i) => {
                    &&& final(self).entries_spec().len() == old(self).entries_spec().len()
                    &&& forall|k: int| 0 <= k < old(self).entries_spec().len() && k != i
                        ==> #[trigger] final(self).entries_spec()[k] == old(self).entries_spec()[k]
                    &&& final(self).entries_spec()[i].id == old(self).entries_spec()[i].id
                    &&& final(self).entries_spec()[i].files@ == old(self).entries_spec()[i].files@.push(
                        CabinetFile { id, path },
                    )
                    &&& r matches Some(n) && n == final(self).entries_spec()[i].files@.len()
                },
                None => r is None && final(self).entries_spec() == old(self).entries_spec(),
            },
    {
        proof {
            lemma_cabinet_index(self.entries@, cabinet@);
        }
        let mut i: usize = 0;
        while i < self.entries.len()
            invariant
                self.entries@ == old(self).entries@,
                i <= self.entries@.len(),
                forall|k: int| 0 <= k < i ==> (#[trigger] self.entries@[k]).id@ != cabinet@,
            decreases self.entries@.len() - i,
        {
            if crate::text::str_eq(self.entries[i].id.as_str(), cabinet) {
                proof {
                    lemma_cabinet_index(self.entries@, cabinet@);
                }
                let mut info = self.entries.remove(i);
                info.add_file(id, path);
                let count = info.files.len();
                self.entries.insert(i, info);
                return Some(count);
            }
            i = i + 1;
        }
        proof {
            lemma_cabinet_index(self.entries@, cabinet@);
        }
        None
    }
}

impl DaoContainer for Cabinets {
    type Dao = CabinetInfo;

    closed spec fn entries_spec(&self) -> Seq<CabinetInfo> {
        self.entries@
    }

    fn entries(&self) -> (r: &Vec<CabinetInfo>) {
        &self.entries
    }

    fn push_entry(&mut self, entry: CabinetInfo) {
        self.entries.push(entry);
    }
}

} // verus!
