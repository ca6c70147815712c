//! Manifests and the chunk contexts derived from them.
//!
//! A manifest lists, per file, the lengths and checksums of the chunks the
//! file is fetched in. A chunk context names one such chunk: the file it
//! belongs to, where in the file it starts, and how long it is.

use crate::error::SetupError;
use crate::sums::{
    lemma_prefix_sum_monotone, lemma_prefix_sum_step, lemma_sum_concat, prefix_sum, spec_sum,
};
use vstd::prelude::*;

verus! {

/// One file of a manifest: its chunks in file order.
#[derive(Debug, Clone)]
pub struct DropChunk {
    /// POSIX permission bits of the finished file.
    pub permissions: u32,
    pub ids: Vec<String>,
    /// The hex digest of each chunk, in chunk order. Entries beyond the last
    /// chunk are passed over.
    pub checksums: Vec<String>,
    /// The byte length of each chunk.
    pub lengths: Vec<usize>,
    pub version_name: String,
}

/// The files of one downloadable item, each with its path below the install
/// directory, in the order the server listed them.
#[derive(Debug, Clone)]
pub struct DropManifest {
    pub files: Vec<(String, DropChunk)>,
}

/// One byte range of one destination file.
#[derive(Debug, Clone)]
pub struct DropDownloadContext {
    /// Path of the file below the install directory.
    pub file_name: String,
    pub version: String,
    /// Position of the chunk within its file.
    pub index: usize,
    /// Where in the file the chunk starts.
    pub offset: u64,
    pub game_id: String,
    /// Expected hex digest.
    pub checksum: String,
    pub length: usize,
    pub permissions: u32,
}

/// What a chunk context says, as plain values.
pub struct ContextModel {
    pub file_name: Seq<char>,
    pub version: Seq<char>,
    pub index: int,
    pub offset: int,
    pub game_id: Seq<char>,
    pub checksum: Seq<char>,
    pub length: int,
    pub permissions: u32,
}

impl View for DropDownloadContext {
    type V = ContextModel;

    open spec fn view(&self) -> ContextModel {
        ContextModel {
            file_name: self.file_name@,
            version: self.version@,
            index: self.index as int,
            offset: self.offset as int,
            game_id: self.game_id@,
            checksum: self.checksum@,
            length: self.length as int,
            permissions: self.permissions,
        }
    }
}

/// The models of a run of contexts.
pub open spec fn models(contexts: Seq<DropDownloadContext>) -> Seq<ContextModel> {
    Seq::new(contexts.len(), |i: int| contexts[i]@)
}

/// The lengths of a run of contexts.
pub open spec fn context_lengths(contexts: Seq<ContextModel>) -> Seq<usize> {
    Seq::new(contexts.len(), |i: int| contexts[i].length as usize)
}

/// The context of chunk `i` of a file: it starts where the chunks before it end.
pub open spec fn file_context(
    game_id: Seq<char>,
    name: Seq<char>,
    chunk: DropChunk,
    i: int,
) -> ContextModel {
    ContextModel {
        file_name: name,
        version: chunk.version_name@,
        index: i,
        offset: prefix_sum(chunk.lengths@, i),
        game_id,
        checksum: chunk.checksums@[i]@,
        length: chunk.lengths@[i] as int,
        permissions: chunk.permissions,
    }
}

/// The contexts of one file, one per chunk, in file order.
pub open spec fn file_contexts(game_id: Seq<char>, name: Seq<char>, chunk: DropChunk) -> Seq<
    ContextModel,
> {
    Seq::new(chunk.lengths@.len(), |i: int| file_context(game_id, name, chunk, i))
}

/// The contexts of a whole manifest: those of each file, in manifest order.
pub open spec fn manifest_contexts(game_id: Seq<char>, files: Seq<(String, DropChunk)>) -> Seq<
    ContextModel,
>
    decreases files.len(),
{
    if files.len() == 0 {
        Seq::empty()
    } else {
        manifest_contexts(game_id, files.drop_last()) + file_contexts(
            game_id,
            files.last().0@,
            files.last().1,
        )
    }
}

/// What is wrong with a file's entry, if anything: a chunk without a
/// checksum, or more bytes than an offset can address. A missing checksum is
/// reported before an oversized file. Checksums beyond the last chunk are
/// nobody's and are passed over.
pub open spec fn chunk_error(chunk: DropChunk) -> Option<SetupError> {
    if chunk.checksums@.len() < chunk.lengths@.len() {
        Some(SetupError::ChecksumMissing)
    } else if spec_sum(chunk.lengths@) > u64::MAX {
        Some(SetupError::SizeOverflow)
    } else {
        None
    }
}

/// The error of the first file of `files` whose entry has one.
pub open spec fn first_error(files: Seq<(String, DropChunk)>) -> Option<SetupError>
    decreases files.len(),
{
    if files.len() == 0 {
        None
    } else {
        match first_error(files.drop_last()) {
            Some(e) => Some(e),
            None => chunk_error(files.last().1),
        }
    }
}

/// An error among the first `n` files is the first error of the whole list.
pub proof fn lemma_first_error_prefix(files: Seq<(String, DropChunk)>, n: int)
    requires
        0 <= n <= files.len(),
        first_error(files.subrange(0, n)) is Some,
    ensures
        first_error(files) == first_error(files.subrange(0, n)),
    decreases files.len() - n,
{
    if n < files.len() {
        assert(files.subrange(0, n + 1).drop_last() =~= files.subrange(0, n));
        lemma_first_error_prefix(files, n + 1);
    } else {
        assert(files.subrange(0, n) =~= files);
    }
}

/// The paths of `files` with the size of each file, in manifest order.
pub open spec fn file_sizes(files: Seq<(String, DropChunk)>) -> Seq<(Seq<char>, int)> {
    Seq::new(files.len(), |i: int| (files[i].0@, spec_sum(files[i].1.lengths@)))
}

/// The bytes of all chunks together.
pub open spec fn total_bytes(contexts: Seq<ContextModel>) -> int {
    spec_sum(context_lengths(contexts))
}

/// The sizes of all files together, as the manifest declares them.
pub open spec fn declared_bytes(files: Seq<(String, DropChunk)>) -> int
    decreases files.len(),
{
    if files.len() == 0 {
        0
    } else {
        declared_bytes(files.drop_last()) + spec_sum(files.last().1.lengths@)
    }
}

/// The chunks of a manifest are together as long as its files: nothing is
/// fetched twice and nothing is left out.
pub proof fn lemma_manifest_contexts_cover(game_id: Seq<char>, files: Seq<(String, DropChunk)>)
    ensures
        total_bytes(manifest_contexts(game_id, files)) == declared_bytes(files),
    decreases files.len(),
{
    if files.len() == 0 {
        assert(context_lengths(manifest_contexts(game_id, files)) =~= Seq::<usize>::empty());
    } else {
        let before = manifest_contexts(game_id, files.drop_last());
        let added = file_contexts(game_id, files.last().0@, files.last().1);
        lemma_manifest_contexts_cover(game_id, files.drop_last());
        lemma_file_contexts_cover(game_id, files.last().0@, files.last().1);
        assert(context_lengths(before + added) =~= context_lengths(before) + context_lengths(
            added,
        ));
        lemma_sum_concat(context_lengths(before), context_lengths(added));
    }
}

/// The chunks of one file tile it: the first starts at zero, each next one
/// starts where the one before ends, and together they are as long as the
/// lengths the manifest declares for the file.
pub proof fn lemma_file_contexts_cover(game_id: Seq<char>, name: Seq<char>, chunk: DropChunk)
    ensures
        file_contexts(game_id, name, chunk).len() == chunk.lengths@.len(),
        spec_sum(context_lengths(file_contexts(game_id, name, chunk))) == spec_sum(
            chunk.lengths@,
        ),
        forall|i: int|
            0 <= i < chunk.lengths@.len() ==> (#[trigger] file_contexts(
                game_id,
                name,
                chunk,
            )[i]).index == i,
        chunk.lengths@.len() > 0 ==> file_contexts(game_id, name, chunk)[0].offset == 0,
        forall|i: int|
            0 <= i && i + 1 < chunk.lengths@.len() ==> (#[trigger] file_contexts(
                game_id,
                name,
                chunk,
            )[i + 1]).offset == file_contexts(game_id, name, chunk)[i].offset + file_contexts(
                game_id,
                name,
                chunk,
            )[i].length,
        chunk.lengths@.len() > 0 ==> file_contexts(game_id, name, chunk).last().offset
            + file_contexts(game_id, name, chunk).last().length == spec_sum(chunk.lengths@),
{
    let contexts = file_contexts(game_id, name, chunk);
    let lengths = chunk.lengths@;
    assert(context_lengths(contexts) =~= lengths);
    assert forall|i: int| 0 <= i && i + 1 < lengths.len() implies (#[trigger] contexts[i
        + 1]).offset == contexts[i].offset + contexts[i].length by {
        lemma_prefix_sum_step(lengths, i);
    }
    if lengths.len() > 0 {
        lemma_prefix_sum_step(lengths, 0);
        lemma_prefix_sum_step(lengths, lengths.len() - 1);
    }
}

/// The contexts of one file, and the file's total size.
pub fn build_file_contexts(game_id: &String, name: &String, chunk: &DropChunk) -> (r: Result<
    (Vec<DropDownloadContext>, u64),
    SetupError,
>)
    ensures
        match r {
            Ok((contexts, total)) => {
                &&& chunk_error(*chunk) is None
                &&& models(contexts@) == file_contexts(game_id@, name@, *chunk)
                &&& total == spec_sum(chunk.lengths@)
            },
            Err(e) => chunk_error(*chunk) == Some(e),
        },
{
    if chunk.checksums.len() < chunk.lengths.len() {
        return Err(SetupError::ChecksumMissing);
    }
    let mut contexts: Vec<DropDownloadContext> = Vec::new();
    let mut running_offset: u64 = 0;
    let mut index: usize = 0;
    assert(chunk.lengths@.subrange(0, 0).len() == 0);
    while index < chunk.lengths.len()
        invariant
            index <= chunk.lengths@.len(),
            chunk.checksums@.len() >= chunk.lengths@.len(),
            running_offset == prefix_sum(chunk.lengths@, index as int),
            contexts@.len() == index,
            forall|j: int|
                0 <= j < index ==> (#[trigger] contexts@[j])@ == file_context(
                    game_id@,
                    name@,
                    *chunk,
                    j,
                ),
        decreases chunk.lengths@.len() - index,
    {
        let length = chunk.lengths[index];
        contexts.push(
            DropDownloadContext {
                file_name: name.clone(),
                version: chunk.version_name.clone(),
                index,
                offset: running_offset,
                game_id: game_id.clone(),
                checksum: chunk.checksums[index].clone(),
                length,
                permissions: chunk.permissions,
            },
        );
        proof {
            lemma_prefix_sum_step(chunk.lengths@, index as int);
        }
        match running_offset.checked_add(length as u64) {
            Some(next) => {
                running_offset = next;
            },
            None => {
                proof {
                    lemma_prefix_sum_monotone(
                        chunk.lengths@,
                        index + 1,
                        chunk.lengths@.len() as int,
                    );
                    lemma_prefix_sum_step(chunk.lengths@, index as int);
                }
                return Err(SetupError::SizeOverflow);
            },
        }
        index = index + 1;
    }
    proof {
        assert(chunk.lengths@.subrange(0, index as int) =~= chunk.lengths@);
        assert(models(contexts@) =~= file_contexts(game_id@, name@, *chunk));
    }
    Ok((contexts, running_offset))
}

/// A file to create before the transfer starts, and the size it will have.
#[derive(Debug, Clone)]
pub struct FilePlan {
    /// Path of the file below the install directory.
    pub path: String,
    pub size: u64,
}

/// The paths and sizes of a run of file plans.
pub open spec fn plan_models(plans: Seq<FilePlan>) -> Seq<(Seq<char>, int)> {
    Seq::new(plans.len(), |i: int| (plans[i].path@, plans[i].size as int))
}

/// The contexts of every chunk of every file of `manifest`, in manifest order,
/// with the files to create for them; or the error of the first file whose
/// entry is not usable.
pub fn build_contexts(manifest: &DropManifest, game_id: &String) -> (r: Result<
    (Vec<DropDownloadContext>, Vec<FilePlan>),
    SetupError,
>)
    ensures
        match r {
            Ok((contexts, plans)) => {
                &&& first_error(manifest.files@) is None
                &&& models(contexts@) == manifest_contexts(game_id@, manifest.files@)
                &&& plan_models(plans@) == file_sizes(manifest.files@)
            },
            Err(e) => first_error(manifest.files@) == Some(e),
        },
{
    let mut contexts: Vec<DropDownloadContext> = Vec::new();
    let mut plans: Vec<FilePlan> = Vec::new();
    let mut file: usize = 0;
    while file < manifest.files.len()
        invariant
            file <= manifest.files@.len(),
            first_error(manifest.files@.subrange(0, file as int)) is None,
            models(contexts@) == manifest_contexts(
                game_id@,
                manifest.files@.subrange(0, file as int),
            ),
            plans@.len() == file,
            forall|j: int|
                0 <= j < file ==> (#[trigger] plans@[j].path@, plans@[j].size as int)
                    == file_sizes(manifest.files@)[j],
        decreases manifest.files@.len() - file,
    {
        let entry = &manifest.files[file];
        proof {
            let next = manifest.files@.subrange(0, file + 1);
            assert(next.drop_last() =~= manifest.files@.subrange(0, file as int));
            assert(next.last() == manifest.files@[file as int]);
        }
        match build_file_contexts(game_id, &entry.0, &entry.1) {
            Ok((mut built, size)) => {
                let ghost before = contexts@;
                let ghost added = built@;
                contexts.append(&mut built);
                plans.push(FilePlan { path: entry.0.clone(), size });
                proof {
                    assert(models(before + added) =~= models(before) + models(added));
                }
            },
            Err(e) => {
                proof {
                    lemma_first_error_prefix(manifest.files@, file + 1);
                }
                return Err(e);
            },
        }
        file = file + 1;
    }
    proof {
        assert(manifest.files@.subrange(0, file as int) =~= manifest.files@);
        assert(plan_models(plans@) =~= file_sizes(manifest.files@));
    }
    Ok((contexts, plans))
}

} // verus!
