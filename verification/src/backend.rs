//! The serialisation format that the connector is configured with, and the
//! file extensions that go with it.

use vstd::prelude::*;

use crate::text::ends_with;
use crate::text::range_suffix_start;

verus! {

/// A serialisation format for resources on disk.
#[derive(Clone, Copy, Debug, PartialEq, Eq, Structural)]
pub enum SerdeBackend {
    RON,
    YAML,
}

/// The format in use. There is only ever one at a time.
pub const SERDE: SerdeBackend = SerdeBackend::YAML;

impl SerdeBackend {
    /// The extension, dot included, given to the files that are written.
    pub open spec fn spec_extension(self) -> Seq<char> {
        match self {
            SerdeBackend::RON => ".ron"@,
            SerdeBackend::YAML => ".yaml"@,
        }
    }

    /// A second extension that is accepted when reading, where the format has
    /// one.
    pub open spec fn spec_alternate_extension(self) -> Option<Seq<char>> {
        match self {
            SerdeBackend::RON => None,
            SerdeBackend::YAML => Some(".yml"@),
        }
    }

    /// The file name `name` without its extension, if it carries one that the
    /// format accepts.
    pub open spec fn spec_stem(self, name: Seq<char>) -> Option<Seq<char>> {
        if ends_with(name, self.spec_extension()) {
            Some(name.take(name.len() - self.spec_extension().len()))
        } else {
            match self.spec_alternate_extension() {
                Some(ext) if ends_with(name, ext) => Some(name.take(name.len() - ext.len())),
                _ => None,
            }
        }
    }

    /// Whether files with the extension `ext` are read in this format.
    pub open spec fn spec_accepts(self, ext: Seq<char>) -> bool {
        ext == self.spec_extension() || self.spec_alternate_extension() == Some(ext)
    }

    pub fn extension(&self) -> (r: &'static str)
        ensures
            r@ == self.spec_extension(),
    {
        match self {
            SerdeBackend::RON => ".ron",
            SerdeBackend::YAML => ".yaml",
        }
    }

    pub fn alternate_extension(&self) -> (r: Option<&'static str>)
        ensures
            r is Some == self.spec_alternate_extension() is Some,
            r matches Some(ext) ==> self.spec_alternate_extension() == Some(ext@),
    {
        match self {
            SerdeBackend::RON => None,
            SerdeBackend::YAML => Some(".yml"),
        }
    }
}

/// Where the extension begins in the file name spelled by the characters of
/// `chars` from `from` up to `to`, if the name carries an extension that
/// `backend` accepts.
pub fn stem_end(chars: &Vec<char>, from: usize, to: usize, backend: SerdeBackend) -> (cut: Option<
    usize,
>)
    requires
        from <= to <= chars@.len(),
    ensures
        match cut {
            Some(at) => from <= at <= to && backend.spec_stem(
                chars@.subrange(from as int, to as int),
            ) == Some(chars@.subrange(from as int, at as int)),
            None => backend.spec_stem(chars@.subrange(from as int, to as int)) is None,
        },
{
    let ghost name = chars@.subrange(from as int, to as int);
    match range_suffix_start(chars, from, to, backend.extension()) {
        Some(at) => {
            proof {
                assert(name.take(at - from) =~= chars@.subrange(from as int, at as int));
            }
            Some(at)
        },
        None => match backend.alternate_extension() {
            Some(ext) => match range_suffix_start(chars, from, to, ext) {
                Some(at) => {
                    proof {
                        assert(name.take(at - from) =~= chars@.subrange(from as int, at as int));
                    }
                    Some(at)
                },
                None => None,
            },
            None => None,
        },
    }
}

/// A name followed by the format's extension has that name as its stem.
pub proof fn lemma_stem_of_extended(backend: SerdeBackend, name: Seq<char>)
    ensures
        backend.spec_stem(name + backend.spec_extension()) == Some(name),
{
    let ext = backend.spec_extension();
    let full = name + ext;
    assert(full.subrange(full.len() - ext.len(), full.len() as int) =~= ext);
    assert(full.take(full.len() - ext.len()) =~= name);
}

/// A file name that has a stem is that stem followed by an extension of the
/// format.
pub proof fn lemma_stem_and_extension(backend: SerdeBackend, name: Seq<char>) -> (ext: Seq<char>)
    requires
        backend.spec_stem(name) is Some,
    ensures
        backend.spec_accepts(ext),
        name == backend.spec_stem(name)->0 + ext,
{
    let ext = if ends_with(name, backend.spec_extension()) {
        backend.spec_extension()
    } else {
        backend.spec_alternate_extension()->0
    };
    assert(name =~= name.take(name.len() - ext.len()) + name.subrange(
        name.len() - ext.len(),
        name.len() as int,
    ));
    ext
}

/// No extension holds a path separator.
pub proof fn lemma_extension_separator_free(backend: SerdeBackend)
    ensures
        crate::path::separator_free(backend.spec_extension()),
{
    reveal_strlit(".ron");
    reveal_strlit(".yaml");
}

} // verus!
