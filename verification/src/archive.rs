use vstd::prelude::*;
use crate::utils::{is_safe_url, safe_url};

verus! {

#[verifier::external_type_specification]
#[verifier::external_body]
pub struct ExIoError(std::io::Error);

/// Why an uploaded `.tar.gz` archive is refused before it is unpacked.
#[derive(Debug)]
pub enum ArchiveError {
    /// Decompressing or reading the archive failed.
    Io(std::io::Error),
    /// The entry at this position has a path that is not valid UTF-8.
    NonUtf8Path(usize),
    /// An entry has this path, which `is_safe_url` refuses.
    UnsafePath(String),
}

/// What screening an archive's entry list decides, over plain values.
pub enum ArchiveVerdict {
    Clean,
    ReadFailed,
    NonUtf8Path(nat),
    UnsafePath(Seq<char>),
}

/// One entry as the tar reader reports it: `None` when reading it failed,
/// `Some(None)` when its path is not UTF-8, `Some(Some(p))` for path `p`.
pub open spec fn entry_view(e: Result<Option<String>, std::io::Error>) -> Option<Option<Seq<char>>> {
    match e {
        Ok(Some(p)) => Some(Some(p@)),
        Ok(None) => Some(None),
        Err(_) => None,
    }
}

pub open spec fn entries_view(es: Seq<Result<Option<String>, std::io::Error>>) -> Seq<
    Option<Option<Seq<char>>>,
> {
    es.map_values(|e: Result<Option<String>, std::io::Error>| entry_view(e))
}

/// Entries are looked at in order from position `i`; the first entry that
/// failed to read, has a non-UTF-8 path or an unsafe path decides.
pub open spec fn screen_from(es: Seq<Option<Option<Seq<char>>>>, i: int) -> ArchiveVerdict
    decreases es.len() - i,
{
    if i < 0 || i >= es.len() {
        ArchiveVerdict::Clean
    } else {
        match es[i] {
            None => ArchiveVerdict::ReadFailed,
            Some(None) => ArchiveVerdict::NonUtf8Path(i as nat),
            Some(Some(p)) => if safe_url(p) {
                screen_from(es, i + 1)
            } else {
                ArchiveVerdict::UnsafePath(p)
            },
        }
    }
}

pub open spec fn screen(es: Seq<Option<Option<Seq<char>>>>) -> ArchiveVerdict {
    screen_from(es, 0)
}

/// The library's result agrees with the verdict.
pub open spec fn outcome_matches(r: Result<(), ArchiveError>, v: ArchiveVerdict) -> bool {
    match v {
        ArchiveVerdict::Clean => r is Ok,
        ArchiveVerdict::ReadFailed => r matches Err(ArchiveError::Io(_)),
        ArchiveVerdict::NonUtf8Path(i) => r matches Err(ArchiveError::NonUtf8Path(j)) && j == i,
        ArchiveVerdict::UnsafePath(p) => r matches Err(ArchiveError::UnsafePath(q)) && q@ == p,
    }
}

/// Screens the entries of an archive, in order: the first entry that failed to
/// read gives its I/O error, the first non-UTF-8 path gives `NonUtf8Path`, the
/// first path that `is_safe_url` refuses gives `UnsafePath`; `Ok` when every
/// entry has a safe path.
pub fn screen_entries(entries: Vec<Result<Option<String>, std::io::Error>>) -> (res: Result<
    (),
    ArchiveError,
>)
    ensures
        outcome_matches(res, screen(entries_view(entries@))),
        res is Ok <==> forall|j: int|
            0 <= j < entries@.len() ==> match #[trigger] entries@[j] {
                Ok(Some(p)) => safe_url(p@),
                _ => false,
            },
        res matches Err(ArchiveError::NonUtf8Path(n)) ==> {
            &&& n < entries@.len()
            &&& entries@[n as int] matches Ok(None)
            &&& forall|j: int|
                0 <= j < n ==> match #[trigger] entries@[j] {
                    Ok(Some(p)) => safe_url(p@),
                    _ => false,
                }
        },
        res matches Err(ArchiveError::UnsafePath(q)) ==> exists|k: int|
            0 <= k < entries@.len() && (match #[trigger] entries@[k] {
                Ok(Some(p)) => p@ == q@,
                _ => false,
            }) && !safe_url(q@) && forall|j: int|
                0 <= j < k ==> match #[trigger] entries@[j] {
                    Ok(Some(p)) => safe_url(p@),
                    _ => false,
                },
        res matches Err(ArchiveError::Io(e)) ==> exists|k: int|
            0 <= k < entries@.len() && entries@[k] == Err::<Option<String>, std::io::Error>(e)
                && forall|j: int|
                0 <= j < k ==> match #[trigger] entries@[j] {
                    Ok(Some(p)) => safe_url(p@),
                    _ => false,
                },
{
    let ghost es = entries_view(entries@);
    let mut list = entries;
    let n = list.len();
    let mut i: usize = 0;
    while i < n
        invariant
            n == list@.len(),
            i <= n,
            es == entries_view(list@),
            list@ == entries@,
            screen(es) == screen_from(es, i as int),
            forall|j: int| 0 <= j < i ==> entry_passes(entry_view(#[trigger] entries@[j])),
        decreases n - i,
    {
        assert(es[i as int] == entry_view(list@[i as int]));
        match &list[i] {
            Ok(Some(p)) => {
                if !is_safe_url(p) {
                    return Err(ArchiveError::UnsafePath(p.clone()));
                }
                assert(entry_passes(entry_view(entries@[i as int])));
            },
            Ok(None) => {
                return Err(ArchiveError::NonUtf8Path(i));
            },
            Err(_) => {
                let e = list.swap_remove(i);
                if let Err(err) = e {
                    return Err(ArchiveError::Io(err));
                }
            },
        }
        i += 1;
    }
    Ok(())
}

/// Name for the entry list that `tar::Archive::entries` yields while reading the
/// gzip stream `data` through `flate2::read::GzDecoder`, each entry taken by
/// `entry_view` of its `Entry::path` as UTF-8; `None` when `entries` itself
/// fails.
pub uninterp spec fn tgz_entry_paths(data: Seq<u8>) -> Option<Seq<Option<Option<Seq<char>>>>>;

/// Lists the entries of a gzip-compressed tar archive: `tar::Archive::entries`
/// over `flate2::read::GzDecoder::new(data)`, decompressing as it reads, with
/// each entry's `Entry::path` as a `String` when it is UTF-8. A decoding error
/// surfaces as the failed entry where the reader meets it. Trusted: the result,
/// taken by `entries_view`, is `tgz_entry_paths` of the input bytes; the gzip
/// and tar formats themselves are not stated here.
#[verifier::external_body]
fn tgz_entries(data: &[u8]) -> (res: Result<Vec<Result<Option<String>, std::io::Error>>, std::io::Error>)
    ensures
        match res {
            Ok(es) => tgz_entry_paths(data@) == Some(entries_view(es@)),
            Err(_) => tgz_entry_paths(data@) is None,
        },
{
    let mut ar = tar::Archive::new(flate2::read::GzDecoder::new(data));
    match ar.entries() {
        Ok(es) => Ok(es.map(|e| e.and_then(|e| e.path().map(|p| p.to_str().map(String::from)))).collect()),
        Err(e) => Err(e),
    }
}

/// What screening a gzip-compressed tar archive decides.
pub open spec fn tgz_verdict(data: Seq<u8>) -> ArchiveVerdict {
    match tgz_entry_paths(data) {
        None => ArchiveVerdict::ReadFailed,
        Some(es) => screen(es),
    }
}

/// Checks an uploaded `.tar.gz` archive before it is unpacked: reads its
/// entries, decompressing as it goes, and screens their paths in order with
/// `screen_entries`.
pub fn screen_tgz(data: &[u8]) -> (res: Result<(), ArchiveError>)
    ensures
        outcome_matches(res, tgz_verdict(data@)),
{
    match tgz_entries(data) {
        Err(e) => Err(ArchiveError::Io(e)),
        Ok(entries) => screen_entries(entries),
    }
}

/// An entry that screening lets through: read, UTF-8, with a safe path.
pub open spec fn entry_passes(e: Option<Option<Seq<char>>>) -> bool {
    e matches Some(Some(p)) && safe_url(p)
}

proof fn lemma_screen_from(es: Seq<Option<Option<Seq<char>>>>, i: int)
    requires
        0 <= i <= es.len(),
    ensures
        (screen_from(es, i) is Clean) <==> (forall|j: int|
            i <= j < es.len() ==> entry_passes(#[trigger] es[j])),
        screen_from(es, i) is ReadFailed ==> exists|k: int|
            i <= k < es.len() && #[trigger] es[k] is None && forall|j: int|
                i <= j < k ==> entry_passes(#[trigger] es[j]),
        screen_from(es, i) is NonUtf8Path ==> {
            let n = screen_from(es, i)->NonUtf8Path_0 as int;
            &&& i <= n < es.len()
            &&& es[n] == Some(None::<Seq<char>>)
            &&& forall|j: int| i <= j < n ==> entry_passes(#[trigger] es[j])
        },
        screen_from(es, i) is UnsafePath ==> exists|k: int|
            i <= k < es.len() && #[trigger] es[k] == Some(Some(screen_from(es, i)->UnsafePath_0))
                && !safe_url(screen_from(es, i)->UnsafePath_0) && forall|j: int|
                i <= j < k ==> entry_passes(#[trigger] es[j]),
    decreases es.len() - i,
{
    if i < es.len() {
        lemma_screen_from(es, i + 1);
        if entry_passes(es[i]) {
            let v = screen_from(es, i + 1);
            assert(screen_from(es, i) == v);
            if v is ReadFailed {
                let k = choose|k: int|
                    i + 1 <= k < es.len() && #[trigger] es[k] is None && forall|j: int|
                        i + 1 <= j < k ==> entry_passes(#[trigger] es[j]);
                assert(forall|j: int| i <= j < k ==> entry_passes(#[trigger] es[j]));
            }
            if v is UnsafePath {
                let k = choose|k: int|
                    i + 1 <= k < es.len() && #[trigger] es[k] == Some(Some(v->UnsafePath_0))
                        && !safe_url(v->UnsafePath_0) && forall|j: int|
                        i + 1 <= j < k ==> entry_passes(#[trigger] es[j]);
                assert(forall|j: int| i <= j < k ==> entry_passes(#[trigger] es[j]));
            }
        } else {
            match es[i] {
                Some(Some(p)) => {
                    assert(es[i] == Some(Some(screen_from(es, i)->UnsafePath_0)));
                },
                _ => {},
            }
        }
    }
}

/// Law: screening passes an entry list exactly when every entry was read and
/// has a UTF-8 path that `is_safe_url` accepts.
pub proof fn law_screen_clean_iff_all_safe(es: Seq<Option<Option<Seq<char>>>>)
    ensures
        (screen(es) is Clean) <==> (forall|j: int|
            0 <= j < es.len() ==> match #[trigger] es[j] {
                Some(Some(p)) => safe_url(p),
                _ => false,
            }),
{
    lemma_screen_from(es, 0);
    assert forall|j: int| 0 <= j < es.len() implies entry_passes(#[trigger] es[j]) == (match es[j] {
        Some(Some(p)) => safe_url(p),
        _ => false,
    }) by {}
}

/// Law: screening refuses only at a real offender, and every entry before it
/// was read and has a safe UTF-8 path: a read failure names an entry that
/// could not be read, `NonUtf8Path(n)` names entry `n`, whose path is not
/// UTF-8, and `UnsafePath(p)` names an entry whose path `p` is not safe.
pub proof fn law_screen_refuses_first_offender(es: Seq<Option<Option<Seq<char>>>>)
    ensures
        screen(es) is ReadFailed ==> exists|k: int|
            0 <= k < es.len() && #[trigger] es[k] is None && forall|j: int|
                0 <= j < k ==> match #[trigger] es[j] {
                    Some(Some(p)) => safe_url(p),
                    _ => false,
                },
        screen(es) is NonUtf8Path ==> {
            let n = screen(es)->NonUtf8Path_0 as int;
            &&& 0 <= n < es.len()
            &&& es[n] == Some(None::<Seq<char>>)
            &&& forall|j: int|
                0 <= j < n ==> match #[trigger] es[j] {
                    Some(Some(p)) => safe_url(p),
                    _ => false,
                }
        },
        screen(es) is UnsafePath ==> exists|k: int|
            0 <= k < es.len() && #[trigger] es[k] == Some(Some(screen(es)->UnsafePath_0))
                && !safe_url(screen(es)->UnsafePath_0) && forall|j: int|
                0 <= j < k ==> match #[trigger] es[j] {
                    Some(Some(p)) => safe_url(p),
                    _ => false,
                },
{
    lemma_screen_from(es, 0);
    assert forall|j: int| 0 <= j < es.len() implies entry_passes(#[trigger] es[j]) == (match es[j] {
        Some(Some(p)) => safe_url(p),
        _ => false,
    }) by {}
}

/// Law: an uploaded `.tar.gz` passes screening only when its entries can be
/// listed and every entry was read and has a safe UTF-8 path.
pub proof fn law_tgz_clean_means_safe_entries(data: Seq<u8>)
    requires
        tgz_verdict(data) is Clean,
    ensures
        tgz_entry_paths(data) is Some,
        forall|j: int|
            0 <= j < tgz_entry_paths(data)->0.len() ==> match #[trigger] tgz_entry_paths(data)->0[j] {
                Some(Some(p)) => safe_url(p),
                _ => false,
            },
{
    law_screen_clean_iff_all_safe(tgz_entry_paths(data)->0);
}

} // verus!
