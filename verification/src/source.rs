//! Where font data comes from: a file on disk, bytes built into the
//! program, or a buffer shared in memory.

use std::sync::Arc;
use vstd::prelude::*;

verus! {

/// Who located a font.
#[derive(Debug, Clone, Copy, PartialEq, Eq, Structural)]
pub enum FontOrigin {
    FontConfig,
    CoreText,
    DirectWrite,
    Gdi,
    FontDirs,
    BuiltIn,
}

/// A provider of the bytes of a font file. It never changes once made.
#[derive(Debug, PartialEq, Eq)]
#[allow(inconsistent_fields)]
pub enum FontDataSource {
    /// A file, by its path.
    OnDisk(String),
    /// Bytes that live as long as the program.
    BuiltIn { name: String, data: &'static [u8] },
    /// A buffer that several owners share.
    Memory { name: String, data: Arc<Box<[u8]>> },
}

/// A data source together with the face, and the named instance of a
/// variable font, to load from it. Instance 0 is the default instance.
#[derive(Debug, PartialEq, Eq)]
pub struct FontDataHandle {
    pub source: FontDataSource,
    pub index: u32,
    pub variation: u32,
    pub origin: FontOrigin,
}

/// `Arc::clone`: a second handle to the very same buffer, so the two are
/// equal as values.
#[verifier::external_body]
pub(crate) fn share(data: &Arc<Box<[u8]>>) -> (shared: Arc<Box<[u8]>>)
    ensures
        shared == *data,
{
    Arc::clone(data)
}

impl FontDataSource {
    /// The name of an in-memory source, or the path of a file.
    pub open spec fn name(self) -> Seq<char> {
        match self {
            FontDataSource::OnDisk(path) => path@,
            FontDataSource::BuiltIn { name, .. } => name@,
            FontDataSource::Memory { name, .. } => name@,
        }
    }

    /// The bytes of an in-memory source. A file has to be opened to know.
    pub open spec fn bytes(self) -> Option<Seq<u8>> {
        match self {
            FontDataSource::OnDisk(_) => None,
            FontDataSource::BuiltIn { data, .. } => Some(data@),
            FontDataSource::Memory { data, .. } => Some(data@),
        }
    }

    /// The name under which the source appears in diagnostics: the path of
    /// a file, the name of anything else.
    pub fn name_or_path_str(&self) -> (name: String)
        ensures
            name@ == self.name(),
    {
        match self {
            FontDataSource::OnDisk(path) => path.clone(),
            FontDataSource::BuiltIn { name, .. } => name.clone(),
            FontDataSource::Memory { name, .. } => name.clone(),
        }
    }

    /// The number of bytes of an in-memory source; `None` for a file.
    pub fn data_len(&self) -> (len: Option<usize>)
        ensures
            match len {
                Some(n) => self.bytes() matches Some(bytes) && bytes.len() == n,
                None => self.bytes() is None,
            },
    {
        match self {
            FontDataSource::OnDisk(_) => None,
            FontDataSource::BuiltIn { data, .. } => Some(data.len()),
            FontDataSource::Memory { data, .. } => Some(data.len()),
        }
    }
}

impl Clone for FontDataSource {
    /// A copy that equals this source; shared bytes stay shared.
    fn clone(&self) -> (copy: Self)
        ensures
            copy == *self,
    {
        match self {
            FontDataSource::OnDisk(path) => FontDataSource::OnDisk(path.clone()),
            FontDataSource::BuiltIn { name, data } => FontDataSource::BuiltIn { name: name.clone(), data: *data },
            FontDataSource::Memory { name, data } => FontDataSource::Memory {
                name: name.clone(),
                data: share(data),
            },
        }
    }
}

impl Clone for FontDataHandle {
    /// A copy that equals this handle.
    fn clone(&self) -> (copy: Self)
        ensures
            copy == *self,
    {
        FontDataHandle {
            source: self.source.clone(),
            index: self.index,
            variation: self.variation,
            origin: self.origin,
        }
    }
}

} // verus!
