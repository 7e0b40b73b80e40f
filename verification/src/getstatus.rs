//! Classification of working-tree and index status entries.
//!
//! The repository collaborator reports one bit set per kind of change; the
//! controller reduces each entry to a one-letter code and keeps only the
//! kinds it lists.

use vstd::prelude::*;

verus! {

/// Status bit reported for a file newly added to the index.
pub const INDEX_NEW: u32 = 1;

/// Status bit reported for a file modified in the index.
pub const INDEX_MODIFIED: u32 = 2;

/// Status bit reported for a file deleted from the index.
pub const INDEX_DELETED: u32 = 4;

/// Status bit reported for a file renamed in the index.
pub const INDEX_RENAMED: u32 = 8;

/// Status bit reported for a file whose type changed in the index.
pub const INDEX_TYPECHANGE: u32 = 16;

/// Status bit reported for an untracked file in the working tree.
pub const WT_NEW: u32 = 128;

/// Status bit reported for a file modified in the working tree.
pub const WT_MODIFIED: u32 = 256;

/// Status bit reported for a file deleted from the working tree.
pub const WT_DELETED: u32 = 512;

/// Status bit reported for a file whose type changed in the working tree.
pub const WT_TYPECHANGE: u32 = 1024;

/// Status bit reported for a file renamed in the working tree.
pub const WT_RENAMED: u32 = 2048;

/// One file as shown in a status pane: its path and a one-letter status code
/// (`m`odified, `d`eleted, `t`ype-changed, `r`enamed, `n`ew, `o`ther).
#[derive(Debug)]
pub struct GitFile {
    pub filename: String,
    pub status: char,
}

/// Which side of the index a pane shows.
#[derive(PartialEq, Eq, Structural, Clone, Copy, Debug)]
pub enum TypeStaged {
    Staged,
    Unstaged,
}

/// One entry of the provider's status list: a path and its raw status bits.
pub struct StatusEntry {
    pub path: String,
    pub bits: u32,
}

/// The one-letter code of a working-tree change, by the first matching bit.
pub open spec fn spec_unstaged_char(bits: u32) -> char {
    if bits & WT_MODIFIED != 0 {
        'm'
    } else if bits & WT_DELETED != 0 {
        'd'
    } else if bits & WT_TYPECHANGE != 0 {
        't'
    } else if bits & WT_RENAMED != 0 {
        'r'
    } else if bits & WT_NEW != 0 {
        'n'
    } else {
        'o'
    }
}

/// The one-letter code of an index change, by the first matching bit.
pub open spec fn spec_staged_char(bits: u32) -> char {
    if bits & INDEX_MODIFIED != 0 {
        'm'
    } else if bits & INDEX_DELETED != 0 {
        'd'
    } else if bits & INDEX_TYPECHANGE != 0 {
        't'
    } else if bits & INDEX_RENAMED != 0 {
        'r'
    } else if bits & INDEX_NEW != 0 {
        'n'
    } else {
        'o'
    }
}

/// The code a pane of the given side gives to the given bits.
pub open spec fn spec_status_char(bits: u32, typeneeded: TypeStaged) -> char {
    match typeneeded {
        TypeStaged::Unstaged => spec_unstaged_char(bits),
        TypeStaged::Staged => spec_staged_char(bits),
    }
}

/// The codes a pane lists; a `t` or `o` entry is left out.
pub open spec fn spec_is_listed_status(c: char) -> bool {
    c == 'm' || c == 'd' || c == 'r' || c == 'n'
}

/// The pane rows for the given status entries, in provider order: path and
/// code of every entry whose code is listed on the requested side.
pub open spec fn spec_files(entries: Seq<(Seq<char>, u32)>, typeneeded: TypeStaged) -> Seq<
    (Seq<char>, char),
>
    decreases entries.len(),
{
    if entries.len() == 0 {
        Seq::empty()
    } else {
        let rest = spec_files(entries.drop_last(), typeneeded);
        let last = entries.last();
        let c = spec_status_char(last.1, typeneeded);
        if spec_is_listed_status(c) {
            rest.push((last.0, c))
        } else {
            rest
        }
    }
}

impl GitFile {
    /// The working-tree view of one status entry.
    pub fn new_unstaged(filename: String, bits: u32) -> (r: GitFile)
        ensures
            r.filename == filename,
            r.status == spec_unstaged_char(bits),
    {
        GitFile {
            filename,
            status: if bits & WT_MODIFIED != 0 {
                'm'
            } else if bits & WT_DELETED != 0 {
                'd'
            } else if bits & WT_TYPECHANGE != 0 {
                't'
            } else if bits & WT_RENAMED != 0 {
                'r'
            } else if bits & WT_NEW != 0 {
                'n'
            } else {
                'o'
            },
        }
    }

    /// The index view of one status entry.
    pub fn new_staged(filename: String, bits: u32) -> (r: GitFile)
        ensures
            r.filename == filename,
            r.status == spec_staged_char(bits),
    {
        GitFile {
            filename,
            status: if bits & INDEX_MODIFIED != 0 {
                'm'
            } else if bits & INDEX_DELETED != 0 {
                'd'
            } else if bits & INDEX_TYPECHANGE != 0 {
                't'
            } else if bits & INDEX_RENAMED != 0 {
                'r'
            } else if bits & INDEX_NEW != 0 {
                'n'
            } else {
                'o'
            },
        }
    }

    /// Whether this file's code is one a pane lists.
    pub fn is_listed(&self) -> (r: bool)
        ensures
            r == spec_is_listed_status(self.status),
    {
        self.status == 'm' || self.status == 'd' || self.status == 'r' || self.status == 'n'
    }
}

/// The rows of one status pane, built fresh from the provider's entries:
/// every entry whose code is listed on the requested side, in provider order.
pub fn get_files(entries: &Vec<StatusEntry>, typeneeded: TypeStaged) -> (r: Vec<GitFile>)
    ensures
        r@.map_values(|f: GitFile| (f.filename@, f.status)) == spec_files(
            entries@.map_values(|e: StatusEntry| (e.path@, e.bits)),
            typeneeded,
        ),
{
    let ghost entries_model = entries@.map_values(|e: StatusEntry| (e.path@, e.bits));
    let mut all_file: Vec<GitFile> = Vec::new();
    let mut i: usize = 0;
    while i < entries.len()
        invariant
            i <= entries@.len(),
            entries_model == entries@.map_values(|e: StatusEntry| (e.path@, e.bits)),
            all_file@.map_values(|f: GitFile| (f.filename@, f.status)) == spec_files(
                entries_model.take(i as int),
                typeneeded,
            ),
        decreases entries@.len() - i,
    {
        let entry = &entries[i];
        let gitfile = match typeneeded {
            TypeStaged::Unstaged => GitFile::new_unstaged(entry.path.clone(), entry.bits),
            TypeStaged::Staged => GitFile::new_staged(entry.path.clone(), entry.bits),
        };
        proof {
            assert(entries_model.take(i + 1 as int).drop_last() =~= entries_model.take(i as int));
            assert(entries_model.take(i + 1 as int).last() == (entry.path@, entry.bits));
        }
        if gitfile.is_listed() {
            let ghost before = all_file@;
            all_file.push(gitfile);
            proof {
                assert(all_file@.map_values(|f: GitFile| (f.filename@, f.status)) =~= before
                    .map_values(|f: GitFile| (f.filename@, f.status)).push(
                    (entry.path@, spec_status_char(entry.bits, typeneeded)),
                ));
            }
        }
        i += 1;
    }
    proof {
        assert(entries_model.take(entries@.len() as int) =~= entries_model);
    }
    all_file
}

} // verus!
