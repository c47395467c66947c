//! Paths below a directory and the fixed on-disk layout of the backend's
//! data directory.

use crate::platform::{is_separator, main_separator, separates, separator_text, OperatingSystem};
use vstd::prelude::*;
use vstd::string::*;

verus! {

/// The path of the entry `name` inside `dir`. The system's separator is
/// written between the two unless `dir` is empty or already ends in a
/// separator.
pub open spec fn child_path(dir: Seq<char>, name: Seq<char>, os: OperatingSystem) -> Seq<char> {
    if dir.len() == 0 || is_separator(dir.last(), os) {
        dir + name
    } else {
        dir + seq![main_separator(os)] + name
    }
}

/// Builds the path of the entry `name` inside `dir`.
pub fn join(dir: &str, name: &str, os: OperatingSystem) -> (r: String)
    ensures
        r@ == child_path(dir@, name@, os),
{
    let length = dir.unicode_len();
    let mut path = String::from_str(dir);
    if length > 0 && !separates(dir.get_char(length - 1), os) {
        path.append(separator_text(os));
    }
    path.append(name);
    path
}

/// File name of the backend's database inside the data directory.
pub open spec fn database_name() -> Seq<char> {
    "c3i-backup-one.db"@
}

/// Directory name of the backup repositories inside the data directory.
pub open spec fn repositories_name() -> Seq<char> {
    "repositories"@
}

/// Directory name of the mounted volumes inside the data directory.
pub open spec fn volumes_name() -> Seq<char> {
    "volumes"@
}

/// Directory name of the backup tool's cache inside the data directory.
pub open spec fn cache_name() -> Seq<char> {
    "cache"@
}

/// File name of the credentials file inside the data directory.
pub open spec fn credentials_name() -> Seq<char> {
    "restic-pass"@
}

/// Where the backend keeps its state: the data directory and its five
/// fixed-name children.
#[derive(Clone, Debug, PartialEq, Eq)]
pub struct DataLayout {
    pub data_dir: String,
    pub database_file: String,
    pub repositories_dir: String,
    pub volumes_dir: String,
    pub cache_dir: String,
    pub credentials_file: String,
}

/// The layout as plain texts.
pub struct DataLayoutView {
    pub data_dir: Seq<char>,
    pub database_file: Seq<char>,
    pub repositories_dir: Seq<char>,
    pub volumes_dir: Seq<char>,
    pub cache_dir: Seq<char>,
    pub credentials_file: Seq<char>,
}

impl View for DataLayout {
    type V = DataLayoutView;

    open spec fn view(&self) -> DataLayoutView {
        DataLayoutView {
            data_dir: self.data_dir@,
            database_file: self.database_file@,
            repositories_dir: self.repositories_dir@,
            volumes_dir: self.volumes_dir@,
            cache_dir: self.cache_dir@,
            credentials_file: self.credentials_file@,
        }
    }
}

/// The layout that belongs to a data directory.
pub open spec fn layout_of(data_dir: Seq<char>, os: OperatingSystem) -> DataLayoutView {
    DataLayoutView {
        data_dir,
        database_file: child_path(data_dir, database_name(), os),
        repositories_dir: child_path(data_dir, repositories_name(), os),
        volumes_dir: child_path(data_dir, volumes_name(), os),
        cache_dir: child_path(data_dir, cache_name(), os),
        credentials_file: child_path(data_dir, credentials_name(), os),
    }
}

impl DataLayoutView {
    /// The directories that must exist before the backend starts, parents
    /// first. The database and the credentials file are left to the backend.
    pub open spec fn directories(self) -> Seq<Seq<char>> {
        seq![self.data_dir, self.repositories_dir, self.volumes_dir, self.cache_dir]
    }
}

impl DataLayout {
    /// Derives the layout of `data_dir`. Nothing is touched on disk.
    pub fn derive(data_dir: &str, os: OperatingSystem) -> (r: DataLayout)
        ensures
            r@ == layout_of(data_dir@, os),
    {
        DataLayout {
            data_dir: String::from_str(data_dir),
            database_file: join(data_dir, "c3i-backup-one.db", os),
            repositories_dir: join(data_dir, "repositories", os),
            volumes_dir: join(data_dir, "volumes", os),
            cache_dir: join(data_dir, "cache", os),
            credentials_file: join(data_dir, "restic-pass", os),
        }
    }

    /// The directories to create, in creation order.
    pub fn directories(&self) -> (r: Vec<String>)
        ensures
            r.deep_view() == self@.directories(),
    {
        let mut dirs: Vec<String> = Vec::new();
        dirs.push(self.data_dir.clone());
        dirs.push(self.repositories_dir.clone());
        dirs.push(self.volumes_dir.clone());
        dirs.push(self.cache_dir.clone());
        assert(dirs.deep_view() =~= self@.directories());
        dirs
    }
}

/// Every child of a directory lies strictly below it: its path is longer
/// than the directory's whenever the child's name is not empty.
pub proof fn lemma_child_path_longer(dir: Seq<char>, name: Seq<char>, os: OperatingSystem)
    requires
        name.len() > 0,
    ensures
        child_path(dir, name, os).len() > dir.len(),
        child_path(dir, name, os).len() - name.len() == child_path(
            dir,
            Seq::<char>::empty(),
            os,
        ).len(),
{
}

/// Provisioning never names a directory twice: the four directories of a
/// layout are pairwise different, whatever the data directory is.
pub proof fn lemma_directories_distinct(data_dir: Seq<char>, os: OperatingSystem)
    ensures
        layout_of(data_dir, os).directories().no_duplicates(),
{
    reveal_strlit("repositories");
    reveal_strlit("volumes");
    reveal_strlit("cache");
    let dirs = layout_of(data_dir, os).directories();
    lemma_child_path_longer(data_dir, repositories_name(), os);
    lemma_child_path_longer(data_dir, volumes_name(), os);
    lemma_child_path_longer(data_dir, cache_name(), os);
    assert(dirs[0].len() == data_dir.len());
    assert(dirs[1].len() != dirs[2].len());
    assert(dirs[1].len() != dirs[3].len());
    assert(dirs[2].len() != dirs[3].len());
    assert forall|i: int, j: int| 0 <= i < dirs.len() && 0 <= j < dirs.len() && i != j implies dirs[i]
        != dirs[j] by {
        assert(dirs[i].len() != dirs[j].len());
    }
}

} // verus!
