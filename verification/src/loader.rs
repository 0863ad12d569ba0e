//! The loading pipeline's decisions: classifying a selection, ordering a
//! directory's entries, filtering an archive's members, and turning what was
//! enumerated and decoded into the terminal message of a load request.
//!
//! The I/O itself — reading files, extracting archives, rendering document
//! pages, decoding rasters — is an external capability; a worker performs it
//! and feeds plain values through these functions.

use vstd::prelude::*;
use crate::page::{pages_wf, DecodedImage, PageEntry};
use crate::store::DisplayMode;
use crate::utils::{detect_file_type_from_bytes, spec_file_type_of, FileType};

verus! {

/// The kinds of source a load request can name.
#[derive(Clone, Copy, Debug, PartialEq, Eq, Structural)]
pub enum SourceKind {
    SingleFile,
    Directory,
    Archive,
    Document,
}

/// Why a load failed as a whole. A failure on one member of a directory or
/// archive is recovered locally and never surfaces here.
#[derive(Clone, Copy, Debug, PartialEq, Eq, Structural)]
pub enum LoadError {
    /// The selected path could not be opened or is not a regular file.
    SourceOpen,
    /// The selected file's bytes could not be decoded at all.
    Decode,
    /// The archive, document or directory could not be enumerated.
    Enumeration,
}

/// One load request, as the interactive side hands it to a worker: what to
/// load, the viewport at request time, and the display mode asked for.
/// Created once per user action and consumed by one worker; the id — the
/// one `begin_load` returned for it — ties the eventual terminal message
/// back to the request it answers.
pub struct LoadRequest {
    pub request_id: u64,
    pub kind: SourceKind,
    pub path: String,
    pub viewport_width: i32,
    pub viewport_height: i32,
    pub display_mode: DisplayMode,
}

/// What a finished load yields: the new ordered page list, or the failure.
pub enum LoadResult {
    Replaced(Vec<PageEntry>),
    Failed(LoadError),
}

/// The terminal message a load worker emits, exactly once per request,
/// tagged with the request it answers so that a stale result — one from a
/// request that a newer one has superseded — can be recognized and dropped.
pub struct LoadOutcome {
    pub request_id: u64,
    pub result: LoadResult,
}

impl LoadOutcome {
    /// Every page carried by a successful outcome is well-formed.
    pub open spec fn wf(&self) -> bool {
        self.result matches LoadResult::Replaced(pages) ==> pages_wf(pages@)
    }
}

/// The loader a sniffed content class selects.
pub open spec fn spec_source_kind_of(t: FileType) -> SourceKind {
    match t {
        FileType::ZIP => SourceKind::Archive,
        FileType::PDF => SourceKind::Document,
        _ => SourceKind::Directory,
    }
}

/// Chooses the loader for a user selection from its sniffed content class: a
/// ZIP archive gets the archive loader, a PDF the document loader, and any
/// other selection — an image among them — is treated as part of its parent
/// directory, which is enumerated as a whole. `SingleFile` is never chosen
/// here; it serves callers that request one file directly.
pub fn classify_source(t: &FileType) -> (k: SourceKind)
    ensures
        k == spec_source_kind_of(*t),
{
    match t {
        FileType::ZIP => SourceKind::Archive,
        FileType::PDF => SourceKind::Document,
        _ => SourceKind::Directory,
    }
}

/// Whether an archive member's content sniffs as a raster image the viewer
/// can decode.
pub open spec fn is_raster_member(bytes: Seq<u8>) -> bool {
    spec_file_type_of(bytes) == FileType::PNG || spec_file_type_of(bytes) == FileType::JPG
}

/// Keeps, in order, exactly the archive members whose content sniffs as a
/// raster image (PNG or JPEG). Spanned fragments, text files and other
/// unrecognized members are silently dropped, never failed.
pub fn filter_raster_members(members: Vec<Vec<u8>>) -> (kept: Vec<Vec<u8>>)
    ensures
        kept@ == members@.filter(|m: Vec<u8>| is_raster_member(m@)),
{
    let ghost orig = members@;
    let total = members.len();
    let mut rest = members;
    let mut kept: Vec<Vec<u8>> = Vec::new();
    let mut done: usize = 0;
    while rest.len() > 0
        invariant
            total as int == orig.len(),
            done as int + rest@.len() == orig.len(),
            rest@ =~= orig.skip(done as int),
            kept@ == orig.take(done as int).filter(|m: Vec<u8>| is_raster_member(m@)),
        decreases rest@.len(),
    {
        let member = rest.remove(0);
        let kind = detect_file_type_from_bytes(member.as_slice());
        proof {
            reveal_with_fuel(Seq::<_>::filter, 2);
            let pred = |m: Vec<u8>| is_raster_member(m@);
            let d = done as int;
            assert(member == orig[d]);
            assert(orig.take(d + 1).drop_last() =~= orig.take(d));
            assert(orig.take(d + 1).last() == orig[d]);
            assert(orig.take(d + 1).filter(pred) == if pred(orig[d]) {
                orig.take(d).filter(pred).push(orig[d])
            } else {
                orig.take(d).filter(pred)
            });
        }
        if kind == FileType::PNG || kind == FileType::JPG {
            kept.push(member);
        }
        done = done + 1;
        proof {
            assert(rest@ =~= orig.skip(done as int));
        }
    }
    proof {
        assert(orig.take(done as int) =~= orig);
    }
    kept
}

/// Byte-wise lexicographic order on entry names: the stable, deterministic
/// order a directory's files are shown in, whatever order the file system
/// happens to list them in.
pub open spec fn lex_le(a: Seq<u8>, b: Seq<u8>) -> bool
    decreases a.len(),
{
    if a.len() == 0 {
        true
    } else if b.len() == 0 {
        false
    } else if a[0] < b[0] {
        true
    } else if b[0] < a[0] {
        false
    } else {
        lex_le(a.skip(1), b.skip(1))
    }
}

/// Lexicographic order is total.
pub proof fn lemma_lex_le_total(a: Seq<u8>, b: Seq<u8>)
    ensures
        lex_le(a, b) || lex_le(b, a),
    decreases a.len(),
{
    if a.len() > 0 && b.len() > 0 && a[0] == b[0] {
        lemma_lex_le_total(a.skip(1), b.skip(1));
    }
}

/// Lexicographic order is transitive.
pub proof fn lemma_lex_le_trans(a: Seq<u8>, b: Seq<u8>, c: Seq<u8>)
    requires
        lex_le(a, b),
        lex_le(b, c),
    ensures
        lex_le(a, c),
    decreases a.len(),
{
    if a.len() > 0 && b.len() > 0 && c.len() > 0 && a[0] == b[0] && b[0] == c[0] {
        lemma_lex_le_trans(a.skip(1), b.skip(1), c.skip(1));
    }
}

/// Compares two entry names byte-wise.
pub fn name_le(a: &Vec<u8>, b: &Vec<u8>) -> (r: bool)
    ensures
        r == lex_le(a@, b@),
{
    let shorter = if a.len() < b.len() {
        a.len()
    } else {
        b.len()
    };
    let mut i: usize = 0;
    proof {
        assert(a@.skip(0) =~= a@);
        assert(b@.skip(0) =~= b@);
    }
    while i < shorter
        invariant
            i <= shorter,
            shorter <= a@.len(),
            shorter <= b@.len(),
            lex_le(a@, b@) == lex_le(a@.skip(i as int), b@.skip(i as int)),
        decreases shorter - i,
    {
        proof {
            assert(a@.skip(i as int).skip(1) =~= a@.skip(i as int + 1));
            assert(b@.skip(i as int).skip(1) =~= b@.skip(i as int + 1));
        }
        if a[i] < b[i] {
            return true;
        }
        if b[i] < a[i] {
            return false;
        }
        i = i + 1;
    }
    a.len() <= b.len()
}

/// Entry names in ascending lexicographic order.
pub open spec fn sorted_by_lex(names: Seq<Vec<u8>>) -> bool {
    forall|i: int, j: int| 0 <= i < j < names.len() ==> lex_le(names[i]@, names[j]@)
}

/// Sorts a directory's entry names into byte-wise lexicographic order: the
/// result is a permutation of the input, ascending. Enumerating the sorted
/// names makes a directory load deterministic.
pub fn sort_entry_names(names: Vec<Vec<u8>>) -> (sorted: Vec<Vec<u8>>)
    ensures
        sorted_by_lex(sorted@),
        sorted@.to_multiset() == names@.to_multiset(),
        sorted@.len() == names@.len(),
{
    broadcast use vstd::seq_lib::group_to_multiset_ensures;

    let ghost orig = names@;
    let mut rest = names;
    let mut sorted: Vec<Vec<u8>> = Vec::new();
    while rest.len() > 0
        invariant
            sorted@.to_multiset().add(rest@.to_multiset()) == orig.to_multiset(),
            sorted@.len() + rest@.len() == orig.len(),
            sorted_by_lex(sorted@),
            forall|i: int, j: int|
                #![trigger sorted@[i], rest@[j]]
                0 <= i < sorted@.len() && 0 <= j < rest@.len() ==> lex_le(sorted@[i]@, rest@[j]@),
        decreases rest@.len(),
    {
        let mut min_idx: usize = 0;
        let mut k: usize = 1;
        proof {
            lemma_lex_le_total(rest@[0]@, rest@[0]@);
        }
        while k < rest.len()
            invariant
                min_idx < k,
                1 <= k <= rest@.len(),
                forall|t: int| 0 <= t < k ==> lex_le(rest@[min_idx as int]@, #[trigger] rest@[t]@),
            decreases rest@.len() - k,
        {
            if name_le(&rest[k], &rest[min_idx]) {
                proof {
                    lemma_lex_le_total(rest@[k as int]@, rest@[k as int]@);
                    assert forall|t: int| 0 <= t < k implies lex_le(
                        rest@[k as int]@,
                        #[trigger] rest@[t]@,
                    ) by {
                        lemma_lex_le_trans(rest@[k as int]@, rest@[min_idx as int]@, rest@[t]@);
                    }
                }
                min_idx = k;
            } else {
                proof {
                    lemma_lex_le_total(rest@[k as int]@, rest@[min_idx as int]@);
                }
            }
            k = k + 1;
        }
        let ghost rest_before = rest@;
        let m = rest.remove(min_idx);
        proof {
            broadcast use vstd::seq_lib::group_to_multiset_ensures;

            assert(rest_before.to_multiset().count(m) > 0) by {
                rest_before.to_multiset_ensures();
                assert(rest_before[min_idx as int] == m);
                assert(rest_before.contains(m));
            }
            assert(rest@ == rest_before.remove(min_idx as int));
            assert(rest_before.remove(min_idx as int).to_multiset() =~= rest_before.to_multiset()
                .remove(m));
            assert(sorted@.push(m).to_multiset() =~= sorted@.to_multiset().insert(m));
            assert(sorted@.push(m).to_multiset().add(rest@.to_multiset())
                =~= sorted@.to_multiset().add(rest_before.to_multiset()));
            assert forall|j: int| 0 <= j < rest@.len() implies lex_le(m@, #[trigger] rest@[j]@) by {
                if j < min_idx {
                    assert(rest@[j] == rest_before[j]);
                } else {
                    assert(rest@[j] == rest_before[j + 1]);
                }
            }
        }
        sorted.push(m);
    }
    proof {
        assert(sorted@.to_multiset() =~= orig.to_multiset());
        assert(sorted@.len() == orig.len()) by {
            assert(sorted@.to_multiset().len() == orig.to_multiset().len());
        }
    }
    sorted
}

/// The pages a decoded enumeration yields: each successfully decoded item
/// becomes a not-yet-scaled page, in source order; items whose decode failed
/// are skipped.
pub open spec fn spec_pages_of(decoded: Seq<Option<DecodedImage>>) -> Seq<PageEntry>
    decreases decoded.len(),
{
    if decoded.len() == 0 {
        Seq::empty()
    } else {
        let rest = spec_pages_of(decoded.drop_last());
        match decoded.last() {
            Some(img) => rest.push(PageEntry { original: img, scaled: None }),
            None => rest,
        }
    }
}

/// Wraps each successfully decoded item into a not-yet-scaled page, in
/// source order. An item whose decode failed (an unreadable file in a
/// directory, say) is skipped, and never aborts the load.
pub fn build_pages(decoded: &Vec<Option<DecodedImage>>) -> (pages: Vec<PageEntry>)
    requires
        forall|i: int|
            0 <= i < decoded@.len() ==> ((#[trigger] decoded@[i]) matches Some(img) ==> img.wf()),
    ensures
        pages@ == spec_pages_of(decoded@),
        pages_wf(pages@),
{
    let mut pages: Vec<PageEntry> = Vec::new();
    let mut i: usize = 0;
    while i < decoded.len()
        invariant
            i <= decoded@.len(),
            forall|k: int|
                0 <= k < decoded@.len() ==> ((#[trigger] decoded@[k]) matches Some(img)
                    ==> img.wf()),
            pages@ == spec_pages_of(decoded@.take(i as int)),
            pages_wf(pages@),
        decreases decoded@.len() - i,
    {
        proof {
            assert(decoded@.take(i as int + 1).drop_last() =~= decoded@.take(i as int));
            assert(decoded@.take(i as int + 1).last() == decoded@[i as int]);
        }
        match decoded[i] {
            Some(img) => {
                pages.push(PageEntry { original: img, scaled: None });
            },
            None => {},
        }
        i = i + 1;
    }
    proof {
        assert(decoded@.take(i as int) =~= decoded@);
    }
    pages
}

/// Turns the enumeration's result into the terminal message for a request:
/// an enumeration-level failure fails the whole load, with no partial page
/// list; success yields the ordered page list, decode failures of single
/// items already skipped.
pub fn finish_load(
    request_id: u64,
    enumeration: Result<Vec<Option<DecodedImage>>, LoadError>,
) -> (outcome: LoadOutcome)
    requires
        enumeration matches Ok(decoded) ==> forall|i: int|
            0 <= i < decoded@.len() ==> ((#[trigger] decoded@[i]) matches Some(img) ==> img.wf()),
    ensures
        outcome.request_id == request_id,
        outcome.wf(),
        match enumeration {
            Ok(decoded) => outcome.result matches LoadResult::Replaced(pages) && pages@
                == spec_pages_of(decoded@),
            Err(reason) => outcome.result matches LoadResult::Failed(r) && r == reason,
        },
{
    match enumeration {
        Ok(decoded) => {
            let pages = build_pages(&decoded);
            LoadOutcome { request_id, result: LoadResult::Replaced(pages) }
        },
        Err(reason) => LoadOutcome { request_id, result: LoadResult::Failed(reason) },
    }
}

} // verus!
