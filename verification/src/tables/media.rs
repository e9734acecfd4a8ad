//! The Media table: the disks and cabinets that hold the installed files.

use vstd::prelude::*;
use vstd::string::*;
use crate::identifier::{Identifier, opt_id_value, opt_id_view, CabinetIdentifier};
use crate::tables::column::{Category, ColumnKind, ColumnSpec, ColumnView, col, column, columns_view, cell_under, column_at};
use crate::tables::dao::{DaoContainer, IsDao, MsiBuilderListEntry, PackageWriter, ToUniqueMsiIdentifier};
use crate::value::{Value, ValueView, row_view, opt_str_value, opt_str_view, i16_value, opt_i16_value, opt_i32_value, opt_int_view};
use crate::constants::{DEFAULT_IDENTIFIER_MAX_LEN, DISK_PROMPT_MAX_LEN, CABINET_MAX_LEN, VOLUME_LABEL_MAX_LEN, SOURCE_MAX_LEN, LAST_SEQUENCE_MAX, DISK_ID_MIN};
use crate::error::MsiBuilderError;

verus! {

/// One disk of the installation media. `last_sequence` is the sequence
/// number of the last file that the disk holds.
#[derive(Debug)]
pub struct MediaDao {
    pub disk_id: i16,
    pub last_sequence: i16,
    pub disk_prompt: Option<String>,
    pub cabinet: Option<CabinetIdentifier>,
    pub volume_label: Option<String>,
    pub source: Option<String>,
}

/// The cell for a cabinet: the stream name after `#`, which marks a cabinet
/// stored inside the package.
pub open spec fn cabinet_view(cabinet: Option<CabinetIdentifier>) -> ValueView {
    match cabinet {
        Some(c) => ValueView::Str(seq!['#'] + c@),
        None => ValueView::Null,
    }
}

fn cabinet_value(cabinet: &Option<CabinetIdentifier>) -> (r: Value)
    ensures
        r@ == cabinet_view(*cabinet),
{
    match cabinet {
        Some(c) => {
            let mut s = String::new();
            crate::text::push_char(&mut s, '#');
            let mut t = s;
            t.append(c.as_str());
            assert(t@ =~= seq!['#'] + c@);
            Value::Str(t)
        },
        None => Value::Null,
    }
}

impl MediaDao {
    /// A disk whose files are in the cabinet `cabinet` stored inside the
    /// package, holding no file yet. Fails when `disk_id` is below 1.
    pub fn internal(disk_id: i16, cabinet: CabinetIdentifier) -> (r: Result<MediaDao, MsiBuilderError>)
        ensures
            r is Ok <==> disk_id >= DISK_ID_MIN,
            r matches Ok(m) ==> m.disk_id == disk_id && m.last_sequence == 0 && m.cabinet == Some(cabinet)
                && m.disk_prompt is None && m.volume_label is None && m.source is None,
            r matches Err(e) ==> e is InvalidDiskId,
    {
        if disk_id < 1 {
            return Err(MsiBuilderError::InvalidDiskId);
        }
        Ok(MediaDao {
            disk_id,
            last_sequence: 0,
            disk_prompt: None,
            cabinet: Some(cabinet),
            volume_label: None,
            source: None,
        })
    }

    /// The cabinet of the disk, if its files are in a cabinet inside the
    /// package.
    pub fn cabinet_id(&self) -> (r: Option<&CabinetIdentifier>)
        ensures
            match r {
                Some(c) => self.cabinet == Some(*c),
                None => self.cabinet is None,
            },
    {
        match &self.cabinet {
            Some(c) => Some(c),
            None => None,
        }
    }

    /// Makes `count` the last sequence number of the disk and returns it;
    /// fails, changing nothing, when `count` exceeds 32767.
    pub fn set_last_sequence(&mut self, count: usize) -> (r: Result<i16, MsiBuilderError>)
        ensures
            r is Ok <==> count <= LAST_SEQUENCE_MAX,
            r matches Ok(n) ==> n == count && final(self).last_sequence == n,
            r is Err ==> final(self).last_sequence == old(self).last_sequence,
            r matches Err(e) ==> e is SequenceOverflow,
            final(self).disk_id == old(self).disk_id,
            final(self).cabinet == old(self).cabinet,
            final(self).disk_prompt == old(self).disk_prompt,
            final(self).volume_label == old(self).volume_label,
            final(self).source == old(self).source,
    {
        if count > 32767 {
            return Err(MsiBuilderError::SequenceOverflow);
        }
        self.last_sequence = count as i16;
        Ok(count as i16)
    }
}

impl IsDao for MediaDao {
    open spec fn row_spec(&self) -> Seq<ValueView> {
        seq![
            ValueView::Int(self.disk_id as int),
            ValueView::Int(self.last_sequence as int),
            opt_str_view(&self.disk_prompt),
            cabinet_view(self.cabinet),
            opt_str_view(&self.volume_label),
            opt_str_view(&self.source),
        ]
    }

    fn to_row(&self) -> (r: Vec<Value>) {
        let r = vec![
            i16_value(self.disk_id),
            i16_value(self.last_sequence),
            opt_str_value(&self.disk_prompt),
            cabinet_value(&self.cabinet),
            opt_str_value(&self.volume_label),
            opt_str_value(&self.source),
        ];
        assert(row_view(r@) =~= self.row_spec());
        r
    }
}

impl MsiBuilderListEntry for MediaDao {
    /// Two disks conflict when they have the same number.
    open spec fn conflicts_spec(&self, other: &Self) -> bool {
        self.disk_id == other.disk_id
    }

    fn conflicts(&self, other: &Self) -> (r: bool) {
        self.disk_id == other.disk_id
    }
}

impl ToUniqueMsiIdentifier for MediaDao {
    open spec fn unique_id_spec(&self) -> Option<Seq<char>> {
        None
    }

    fn to_unique_msi_identifier(&self) -> (r: Option<Identifier>) {
        None
    }
}

/// The Media table.
pub struct MediaTable {
    entries: Vec<MediaDao>,
}

impl MediaTable {
    /// An empty table.
    pub fn new() -> (r: MediaTable)
        ensures
            r.entries_spec() == Seq::<MediaDao>::empty(),
    {
        MediaTable { entries: Vec::new() }
    }

    /// The position of the last disk whose files are in a cabinet inside
    /// the package.
    pub open spec fn last_internal_index(s: Seq<MediaDao>) -> Option<int>
        decreases s.len(),
    {
        if s.len() == 0 {
            None
        } else if s.last().cabinet is Some {
            Some(s.len() - 1)
        } else {
            Self::last_internal_index(s.drop_last())
        }
    }

    /// The last disk whose files are in a cabinet inside the package, to be
    /// changed in place.
    pub fn get_last_internal_media_mut(&mut self) -> (r: Option<&mut MediaDao>)
        ensures
            match Self::last_internal_index(old(self).entries_spec()) {
                Some(i) => r matches Some(m) && 0 <= i < old(self).entries_spec().len()
                    && *m == old(self).entries_spec()[i]
                    && final(self).entries_spec() == old(self).entries_spec().update(i, *final(m)),
                None => r is None && final(self).entries_spec() == old(self).entries_spec(),
            },
    {
        let mut i = self.entries.len();
        let ghost s = self.entries@;
        assert(s.take(i as int) =~= s);
        while i > 0
            invariant
                s == self.entries@,
                s == old(self).entries@,
                i <= s.len(),
                Self::last_internal_index(s) == Self::last_internal_index(s.take(i as int)),
            decreases i,
        {
            assert(s.take(i as int).drop_last() =~= s.take(i - 1));
            assert(s.take(i as int).last() == s[i - 1]);
            if self.entries[i - 1].cabinet.is_some() {
                assert(Self::last_internal_index(s) == Some(i - 1));
                return Some(&mut self.entries[i - 1]);
            }
            i = i - 1;
        }
        None
    }
}

impl DaoContainer for MediaTable {
    type Dao = MediaDao;

    closed spec fn entries_spec(&self) -> Seq<MediaDao> {
        self.entries@
    }

    fn entries(&self) -> (r: &Vec<MediaDao>) {
        &self.entries
    }

    fn push_entry(&mut self, entry: MediaDao) {
        self.entries.push(entry);
    }
}

impl PackageWriter for MediaTable {
    open spec fn name_spec() -> Seq<char> {
        "Media"@
    }

    open spec fn columns_spec() -> Seq<ColumnView> {
        seq![
            col("DiskId"@, ColumnKind::Int16, true, false, false),
            col("LastSequence"@, ColumnKind::Int16, false, false, false),
            col("DiskPrompt"@, ColumnKind::Str(Category::Text, DISK_PROMPT_MAX_LEN), false, true, false),
            col("Cabinet"@, ColumnKind::Str(Category::Cabinet, CABINET_MAX_LEN), false, true, false),
            col("VolumeLabel"@, ColumnKind::Str(Category::Text, VOLUME_LABEL_MAX_LEN), false, true, false),
            col("Source"@, ColumnKind::Str(Category::Property, SOURCE_MAX_LEN), false, true, false),
        ]
    }

    fn name(&self) -> (r: &'static str) {
        "Media"
    }

    fn columns(&self) -> (r: Vec<ColumnSpec>) {
        let r = vec![
            column("DiskId", ColumnKind::Int16, true, false, false),
            column("LastSequence", ColumnKind::Int16, false, false, false),
            column("DiskPrompt", ColumnKind::Str(Category::Text, DISK_PROMPT_MAX_LEN), false, true, false),
            column("Cabinet", ColumnKind::Str(Category::Cabinet, CABINET_MAX_LEN), false, true, false),
            column("VolumeLabel", ColumnKind::Str(Category::Text, VOLUME_LABEL_MAX_LEN), false, true, false),
            column("Source", ColumnKind::Str(Category::Property, SOURCE_MAX_LEN), false, true, false),
        ];
        assert(columns_view(r@) =~= Self::columns_spec());
        r
    }

    proof fn lemma_row_arity(entry: &MediaDao) {
    }
}

/// The row of a Media entry has one cell per column, and each cell lies under
/// the column of the field it holds: `DiskId` holds `disk_id`, `LastSequence`
/// holds `last_sequence`, `DiskPrompt` holds `disk_prompt`, `Cabinet` holds
/// `cabinet`, `VolumeLabel` holds `volume_label`, `Source` holds `source`.
pub proof fn lemma_media_dao_row_columns(d: MediaDao)
    ensures
        cell_under(d.row_spec(), MediaTable::columns_spec(), "DiskId"@, ValueView::Int(d.disk_id as int)),
        cell_under(d.row_spec(), MediaTable::columns_spec(), "LastSequence"@, ValueView::Int(d.last_sequence as int)),
        cell_under(d.row_spec(), MediaTable::columns_spec(), "DiskPrompt"@, opt_str_view(&d.disk_prompt)),
        cell_under(d.row_spec(), MediaTable::columns_spec(), "Cabinet"@, cabinet_view(d.cabinet)),
        cell_under(d.row_spec(), MediaTable::columns_spec(), "VolumeLabel"@, opt_str_view(&d.volume_label)),
        cell_under(d.row_spec(), MediaTable::columns_spec(), "Source"@, opt_str_view(&d.source)),
{
    let cols = MediaTable::columns_spec();
    reveal_strlit("DiskId");
    reveal_strlit("LastSequence");
    reveal_strlit("DiskPrompt");
    reveal_strlit("Cabinet");
    reveal_strlit("VolumeLabel");
    reveal_strlit("Source");
    assert(column_at(cols, "DiskId"@, 0)) by {
        assert forall|j: int| 0 <= j < cols.len() && j != 0 implies (#[trigger] cols[j]).name != "DiskId"@ by {
            if j == 1 {
                assert(cols[1].name == "LastSequence"@);
                assert("LastSequence"@.len() != "DiskId"@.len());
            } else if j == 2 {
                assert(cols[2].name == "DiskPrompt"@);
                assert("DiskPrompt"@.len() != "DiskId"@.len());
            } else if j == 3 {
                assert(cols[3].name == "Cabinet"@);
                assert("Cabinet"@.len() != "DiskId"@.len());
            } else if j == 4 {
                assert(cols[4].name == "VolumeLabel"@);
                assert("VolumeLabel"@.len() != "DiskId"@.len());
            } else if j == 5 {
                assert(cols[5].name == "Source"@);
                assert("Source"@[0] != "DiskId"@[0]);
            }
        }
    }
    assert(column_at(cols, "LastSequence"@, 1)) by {
        assert forall|j: int| 0 <= j < cols.len() && j != 1 implies (#[trigger] cols[j]).name != "LastSequence"@ by {
            if j == 0 {
                assert(cols[0].name == "DiskId"@);
                assert("DiskId"@.len() != "LastSequence"@.len());
            } else if j == 2 {
                assert(cols[2].name == "DiskPrompt"@);
                assert("DiskPrompt"@.len() != "LastSequence"@.len());
            } else if j == 3 {
                assert(cols[3].name == "Cabinet"@);
                assert("Cabinet"@.len() != "LastSequence"@.len());
            } else if j == 4 {
                assert(cols[4].name == "VolumeLabel"@);
                assert("VolumeLabel"@.len() != "LastSequence"@.len());
            } else if j == 5 {
                assert(cols[5].name == "Source"@);
                assert("Source"@.len() != "LastSequence"@.len());
            }
        }
    }
    assert(column_at(cols, "DiskPrompt"@, 2)) by {
        assert forall|j: int| 0 <= j < cols.len() && j != 2 implies (#[trigger] cols[j]).name != "DiskPrompt"@ by {
            if j == 0 {
                assert(cols[0].name == "DiskId"@);
                assert("DiskId"@.len() != "DiskPrompt"@.len());
            } else if j == 1 {
                assert(cols[1].name == "LastSequence"@);
                assert("LastSequence"@.len() != "DiskPrompt"@.len());
            } else if j == 3 {
                assert(cols[3].name == "Cabinet"@);
                assert("Cabinet"@.len() != "DiskPrompt"@.len());
            } else if j == 4 {
                assert(cols[4].name == "VolumeLabel"@);
                assert("VolumeLabel"@.len() != "DiskPrompt"@.len());
            } else if j == 5 {
                assert(cols[5].name == "Source"@);
                assert("Source"@.len() != "DiskPrompt"@.len());
            }
        }
    }
    assert(column_at(cols, "Cabinet"@, 3)) by {
        assert forall|j: int| 0 <= j < cols.len() && j != 3 implies (#[trigger] cols[j]).name != "Cabinet"@ by {
            if j == 0 {
                assert(cols[0].name == "DiskId"@);
                assert("DiskId"@.len() != "Cabinet"@.len());
            } else if j == 1 {
                assert(cols[1].name == "LastSequence"@);
                assert("LastSequence"@.len() != "Cabinet"@.len());
            } else if j == 2 {
                assert(cols[2].name == "DiskPrompt"@);
                assert("DiskPrompt"@.len() != "Cabinet"@.len());
            } else if j == 4 {
                assert(cols[4].name == "VolumeLabel"@);
                assert("VolumeLabel"@.len() != "Cabinet"@.len());
            } else if j == 5 {
                assert(cols[5].name == "Source"@);
                assert("Source"@.len() != "Cabinet"@.len());
            }
        }
    }
    assert(column_at(cols, "VolumeLabel"@, 4)) by {
        assert forall|j: int| 0 <= j < cols.len() && j != 4 implies (#[trigger] cols[j]).name != "VolumeLabel"@ by {
            if j == 0 {
                assert(cols[0].name == "DiskId"@);
                assert("DiskId"@.len() != "VolumeLabel"@.len());
            } else if j == 1 {
                assert(cols[1].name == "LastSequence"@);
                assert("LastSequence"@.len() != "VolumeLabel"@.len());
            } else if j == 2 {
                assert(cols[2].name == "DiskPrompt"@);
                assert("DiskPrompt"@.len() != "VolumeLabel"@.len());
            } else if j == 3 {
                assert(cols[3].name == "Cabinet"@);
                assert("Cabinet"@.len() != "VolumeLabel"@.len());
            } else if j == 5 {
                assert(cols[5].name == "Source"@);
                assert("Source"@.len() != "VolumeLabel"@.len());
            }
        }
    }
    assert(column_at(cols, "Source"@, 5)) by {
        assert forall|j: int| 0 <= j < cols.len() && j != 5 implies (#[trigger] cols[j]).name != "Source"@ by {
            if j == 0 {
                assert(cols[0].name == "DiskId"@);
                assert("DiskId"@[0] != "Source"@[0]);
            } else if j == 1 {
                assert(cols[1].name == "LastSequence"@);
                assert("LastSequence"@.len() != "Source"@.len());
            } else if j == 2 {
                assert(cols[2].name == "DiskPrompt"@);
                assert("DiskPrompt"@.len() != "Source"@.len());
            } else if j == 3 {
                assert(cols[3].name == "Cabinet"@);
                assert("Cabinet"@.len() != "Source"@.len());
            } else if j == 4 {
                assert(cols[4].name == "VolumeLabel"@);
                assert("VolumeLabel"@.len() != "Source"@.len());
            }
        }
    }
}

} // verus!
