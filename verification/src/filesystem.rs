//! Plain descriptions of file-system entries, used by the absolute-path
//! adapter of the fused file system.
use vstd::prelude::*;

verus! {

/// Metadata of one entry.
#[derive(Debug, Clone, Copy, PartialEq, Eq, Structural)]
pub struct FileStat {
    pub size: u64,
    pub is_file: bool,
    pub is_dir: bool,
    pub is_symlink: bool,
}

/// One entry of a directory.
#[derive(Debug)]
pub struct FileDirEntry {
    pub name: String,
    pub stat: FileStat,
}

/// The fused local-and-cloud file system, addressed by absolute paths.
pub struct HarmonyAppFilesystem;

} // verus!
