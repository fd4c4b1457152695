//! The regional data files: one per game client.
use vstd::prelude::*;

verus! {

/// A regional game client, and the data file that holds its releases.
#[derive(Debug, Clone, Copy, PartialEq, Eq, Structural)]
pub enum DataFile {
    Global,
    Cn,
    Kr,
    Tw,
}

/// The name a data file's path starts with.
pub open spec fn spec_file_prefix(data_file: DataFile) -> Seq<char> {
    match data_file {
        DataFile::Global => "global"@,
        DataFile::Cn => "cn"@,
        DataFile::Kr => "kr"@,
        DataFile::Tw => "tw"@,
    }
}

impl DataFile {
    /// The name the data file's path starts with.
    pub fn file_prefix(self) -> (res: &'static str)
        ensures
            res@ == spec_file_prefix(self),
    {
        match self {
            DataFile::Global => "global",
            DataFile::Cn => "cn",
            DataFile::Kr => "kr",
            DataFile::Tw => "tw",
        }
    }

    /// Every data file, each once.
    pub fn all_files() -> (res: [DataFile; 4])
        ensures
            res@ == seq![DataFile::Global, DataFile::Cn, DataFile::Kr, DataFile::Tw],
            forall|d: DataFile| res@.contains(d),
            res@.no_duplicates(),
    {
        let res = [DataFile::Global, DataFile::Cn, DataFile::Kr, DataFile::Tw];
        assert(res@ =~= seq![DataFile::Global, DataFile::Cn, DataFile::Kr, DataFile::Tw]);
        assert forall|d: DataFile| res@.contains(d) by {
            match d {
                DataFile::Global => assert(res@[0] == d),
                DataFile::Cn => assert(res@[1] == d),
                DataFile::Kr => assert(res@[2] == d),
                DataFile::Tw => assert(res@[3] == d),
            }
        }
        res
    }
}

/// Different data files have different file names.
pub proof fn lemma_file_prefix_distinct(a: DataFile, b: DataFile)
    ensures
        spec_file_prefix(a) == spec_file_prefix(b) ==> a == b,
{
    reveal_strlit("global");
    reveal_strlit("cn");
    reveal_strlit("kr");
    reveal_strlit("tw");
    if a != b {
        let (pa, pb) = (spec_file_prefix(a), spec_file_prefix(b));
        assert(pa.len() != pb.len() || pa[0] != pb[0]);
    }
}

} // verus!
