//! Release catalogs and the choice of the file to install.

use crate::text::text_eq;
use vstd::prelude::*;

verus! {

/// One downloadable file of a release.
#[derive(Debug, PartialEq, Eq)]
pub struct ReleaseFile {
    /// Name of the file at the download location.
    pub filename: String,
    /// Operating system the file is built for.
    pub os: String,
    /// Processor architecture the file is built for.
    pub arch: String,
    /// Version of the release the file belongs to.
    pub version: String,
    /// Hexadecimal SHA-256 digest of the file's content.
    pub sha256: String,
    /// Length of the file in bytes.
    pub size: u64,
    /// Kind of file: an archive, an installer package, a source bundle.
    pub kind: String,
}

/// What a [`ReleaseFile`] says, as plain values.
pub struct FileModel {
    pub filename: Seq<char>,
    pub os: Seq<char>,
    pub arch: Seq<char>,
    pub version: Seq<char>,
    pub sha256: Seq<char>,
    pub size: u64,
    pub kind: Seq<char>,
}

impl View for ReleaseFile {
    type V = FileModel;

    open spec fn view(&self) -> FileModel {
        FileModel {
            filename: self.filename@,
            os: self.os@,
            arch: self.arch@,
            version: self.version@,
            sha256: self.sha256@,
            size: self.size,
            kind: self.kind@,
        }
    }
}

impl DeepView for ReleaseFile {
    type V = FileModel;

    open spec fn deep_view(&self) -> FileModel {
        self@
    }
}

impl Clone for ReleaseFile {
    fn clone(&self) -> (copy: Self)
        ensures
            copy == *self,
    {
        ReleaseFile {
            filename: self.filename.clone(),
            os: self.os.clone(),
            arch: self.arch.clone(),
            version: self.version.clone(),
            sha256: self.sha256.clone(),
            size: self.size,
            kind: self.kind.clone(),
        }
    }
}

/// One published version: its files in the order the catalog lists them.
#[derive(Debug, PartialEq, Eq)]
pub struct Release {
    pub files: Vec<ReleaseFile>,
}

impl View for Release {
    type V = Seq<FileModel>;

    open spec fn view(&self) -> Seq<FileModel> {
        self.files.deep_view()
    }
}

impl DeepView for Release {
    type V = Seq<FileModel>;

    open spec fn deep_view(&self) -> Seq<FileModel> {
        self@
    }
}

/// Whether a file is built for the given system and architecture and is of
/// the given kind.
pub open spec fn suits(file: FileModel, os: Seq<char>, arch: Seq<char>, kind: Seq<char>) -> bool {
    file.os == os && file.arch == arch && file.kind == kind
}

/// The first file of a sequence that suits the filter.
pub open spec fn first_suitable(
    files: Seq<FileModel>,
    os: Seq<char>,
    arch: Seq<char>,
    kind: Seq<char>,
) -> Option<FileModel>
    decreases files.len(),
{
    if files.len() == 0 {
        None
    } else if suits(files[0], os, arch, kind) {
        Some(files[0])
    } else {
        first_suitable(files.drop_first(), os, arch, kind)
    }
}

/// The file chosen from a catalog: the first suitable one when the releases
/// are read in catalog order and the files of each in listed order.
pub open spec fn selected(
    catalog: Seq<Seq<FileModel>>,
    os: Seq<char>,
    arch: Seq<char>,
    kind: Seq<char>,
) -> Option<FileModel> {
    first_suitable(catalog.flatten(), os, arch, kind)
}

/// The first suitable file of `a + b` is that of `a`, or else that of `b`.
pub proof fn first_suitable_of_concat(
    a: Seq<FileModel>,
    b: Seq<FileModel>,
    os: Seq<char>,
    arch: Seq<char>,
    kind: Seq<char>,
)
    ensures
        first_suitable(a + b, os, arch, kind) == if first_suitable(a, os, arch, kind) is Some {
            first_suitable(a, os, arch, kind)
        } else {
            first_suitable(b, os, arch, kind)
        },
    decreases a.len(),
{
    if a.len() == 0 {
        assert(a + b =~= b);
    } else {
        assert((a + b)[0] == a[0]);
        assert((a + b).drop_first() =~= a.drop_first() + b);
        first_suitable_of_concat(a.drop_first(), b, os, arch, kind);
    }
}

/// A sequence has no first suitable file exactly when none of its files
/// suits; a first suitable file suits and has only unsuitable files before it.
pub proof fn first_suitable_is_first(
    files: Seq<FileModel>,
    os: Seq<char>,
    arch: Seq<char>,
    kind: Seq<char>,
)
    ensures
        first_suitable(files, os, arch, kind) is None <==> forall|i: int|
            0 <= i < files.len() ==> !suits(#[trigger] files[i], os, arch, kind),
        first_suitable(files, os, arch, kind) matches Some(f) ==> exists|i: int|
            0 <= i < files.len() && #[trigger] files[i] == f && suits(f, os, arch, kind)
                && forall|j: int| 0 <= j < i ==> !suits(#[trigger] files[j], os, arch, kind),
    decreases files.len(),
{
    if files.len() == 0 {
    } else if suits(files[0], os, arch, kind) {
        assert(files[0] == files[0]);
    } else {
        let rest = files.drop_first();
        first_suitable_is_first(rest, os, arch, kind);
        assert forall|i: int| 0 <= i < rest.len() implies rest[i] == files[i + 1] by {}
        if first_suitable(rest, os, arch, kind) is None {
            assert forall|i: int| 0 <= i < files.len() implies !suits(
                #[trigger] files[i],
                os,
                arch,
                kind,
            ) by {
                if i > 0 {
                    assert(rest[i - 1] == files[i]);
                }
            }
        } else {
            let f = first_suitable(rest, os, arch, kind)->0;
            let i = choose|i: int|
                0 <= i < rest.len() && #[trigger] rest[i] == f && suits(f, os, arch, kind)
                    && forall|j: int| 0 <= j < i ==> !suits(#[trigger] rest[j], os, arch, kind);
            assert(files[i + 1] == f);
            assert forall|j: int| 0 <= j < i + 1 implies !suits(
                #[trigger] files[j],
                os,
                arch,
                kind,
            ) by {
                if j > 0 {
                    assert(rest[j - 1] == files[j]);
                }
            }
            assert(suits(files[i + 1], os, arch, kind));
        }
    }
}

/// The choice from a catalog is the first suitable file of its first
/// release, or else the choice from the releases that follow.
pub proof fn selected_by_release(
    catalog: Seq<Seq<FileModel>>,
    os: Seq<char>,
    arch: Seq<char>,
    kind: Seq<char>,
)
    requires
        catalog.len() > 0,
    ensures
        selected(catalog, os, arch, kind) == if first_suitable(catalog[0], os, arch, kind)
            is Some {
            first_suitable(catalog[0], os, arch, kind)
        } else {
            selected(catalog.drop_first(), os, arch, kind)
        },
{
    first_suitable_of_concat(catalog[0], catalog.drop_first().flatten(), os, arch, kind);
}

/// Whether position (`r`, `i`) comes before position (`s`, `j`) when a
/// catalog is read release by release and file by file.
pub open spec fn comes_before(r: int, i: int, s: int, j: int) -> bool {
    r < s || (r == s && i < j)
}

/// Whether (`r`, `i`) is the position of a file in the catalog.
pub open spec fn in_catalog(catalog: Seq<Seq<FileModel>>, r: int, i: int) -> bool {
    0 <= r < catalog.len() && 0 <= i < catalog[r].len()
}

/// The chosen file suits the filter exactly and stands in the catalog.
pub proof fn selected_file_suits(
    catalog: Seq<Seq<FileModel>>,
    os: Seq<char>,
    arch: Seq<char>,
    kind: Seq<char>,
)
    ensures
        selected(catalog, os, arch, kind) matches Some(file) ==> {
            &&& file.os == os
            &&& file.arch == arch
            &&& file.kind == kind
            &&& exists|r: int, i: int| in_catalog(catalog, r, i) && #[trigger] catalog[r][i] == file
        },
    decreases catalog.len(),
{
    if catalog.len() == 0 {
    } else {
        selected_by_release(catalog, os, arch, kind);
        if first_suitable(catalog[0], os, arch, kind) is Some {
            first_suitable_is_first(catalog[0], os, arch, kind);
            let file = first_suitable(catalog[0], os, arch, kind)->0;
            let i = choose|i: int|
                0 <= i < catalog[0].len() && #[trigger] catalog[0][i] == file && suits(
                    file,
                    os,
                    arch,
                    kind,
                );
            assert(in_catalog(catalog, 0, i) && catalog[0][i] == file);
        } else {
            let rest = catalog.drop_first();
            selected_file_suits(rest, os, arch, kind);
            if selected(rest, os, arch, kind) is Some {
                let file = selected(rest, os, arch, kind)->0;
                let (r, i) = choose|r: int, i: int|
                    in_catalog(rest, r, i) && #[trigger] rest[r][i] == file;
                assert(in_catalog(catalog, r + 1, i) && catalog[r + 1][i] == file);
            }
        }
    }
}

/// Nothing is chosen exactly when no file of any release suits the filter.
pub proof fn nothing_selected_iff_nothing_suits(
    catalog: Seq<Seq<FileModel>>,
    os: Seq<char>,
    arch: Seq<char>,
    kind: Seq<char>,
)
    ensures
        selected(catalog, os, arch, kind) is None <==> forall|r: int, i: int|
            in_catalog(catalog, r, i) ==> !suits(#[trigger] catalog[r][i], os, arch, kind),
    decreases catalog.len(),
{
    if catalog.len() == 0 {
    } else {
        let rest = catalog.drop_first();
        selected_by_release(catalog, os, arch, kind);
        first_suitable_is_first(catalog[0], os, arch, kind);
        nothing_selected_iff_nothing_suits(rest, os, arch, kind);
        if selected(catalog, os, arch, kind) is None {
            assert forall|r: int, i: int| in_catalog(catalog, r, i) implies !suits(
                #[trigger] catalog[r][i],
                os,
                arch,
                kind,
            ) by {
                if r > 0 {
                    assert(in_catalog(rest, r - 1, i));
                    assert(rest[r - 1][i] == catalog[r][i]);
                }
            }
        } else if first_suitable(catalog[0], os, arch, kind) is Some {
            let file = first_suitable(catalog[0], os, arch, kind)->0;
            let i = choose|i: int|
                0 <= i < catalog[0].len() && #[trigger] catalog[0][i] == file && suits(
                    file,
                    os,
                    arch,
                    kind,
                );
            assert(in_catalog(catalog, 0, i) && suits(catalog[0][i], os, arch, kind));
        } else {
            let (r, i) = choose|r: int, i: int|
                in_catalog(rest, r, i) && suits(#[trigger] rest[r][i], os, arch, kind);
            assert(in_catalog(catalog, r + 1, i) && suits(catalog[r + 1][i], os, arch, kind));
        }
    }
}

/// First match wins: a suitable file before which no suitable file stands is
/// the one chosen, whatever versions the files carry.
pub proof fn first_match_wins(
    catalog: Seq<Seq<FileModel>>,
    os: Seq<char>,
    arch: Seq<char>,
    kind: Seq<char>,
    r: int,
    i: int,
)
    requires
        in_catalog(catalog, r, i),
        suits(catalog[r][i], os, arch, kind),
        forall|s: int, j: int|
            in_catalog(catalog, s, j) && comes_before(s, j, r, i) ==> !suits(
                #[trigger] catalog[s][j],
                os,
                arch,
                kind,
            ),
    ensures
        selected(catalog, os, arch, kind) == Some(catalog[r][i]),
    decreases catalog.len(),
{
    selected_by_release(catalog, os, arch, kind);
    first_suitable_is_first(catalog[0], os, arch, kind);
    if r == 0 {
        let file = first_suitable(catalog[0], os, arch, kind)->0;
        let k = choose|k: int|
            0 <= k < catalog[0].len() && #[trigger] catalog[0][k] == file && suits(
                file,
                os,
                arch,
                kind,
            ) && forall|j: int| 0 <= j < k ==> !suits(#[trigger] catalog[0][j], os, arch, kind);
        if k < i {
            assert(in_catalog(catalog, 0, k) && comes_before(0, k, r, i));
        }
    } else {
        let rest = catalog.drop_first();
        if first_suitable(catalog[0], os, arch, kind) is Some {
            let file = first_suitable(catalog[0], os, arch, kind)->0;
            let k = choose|k: int|
                0 <= k < catalog[0].len() && #[trigger] catalog[0][k] == file && suits(
                    file,
                    os,
                    arch,
                    kind,
                );
            assert(in_catalog(catalog, 0, k) && comes_before(0, k, r, i));
        }
        assert forall|s: int, j: int|
            in_catalog(rest, s, j) && comes_before(s, j, r - 1, i) implies !suits(
            #[trigger] rest[s][j],
            os,
            arch,
            kind,
        ) by {
            assert(in_catalog(catalog, s + 1, j) && comes_before(s + 1, j, r, i));
            assert(catalog[s + 1][j] == rest[s][j]);
        }
        assert(rest[r - 1] == catalog[r]);
        first_match_wins(rest, os, arch, kind, r - 1, i);
    }
}

/// The first suitable file among the files of one release.
fn first_in_release<'a>(files: &'a Vec<ReleaseFile>, os: &str, arch: &str, kind: &str) -> (found:
    Option<&'a ReleaseFile>)
    ensures
        match found {
            Some(file) => first_suitable(files.deep_view(), os@, arch@, kind@) == Some(file@),
            None => first_suitable(files.deep_view(), os@, arch@, kind@) is None,
        },
{
    let ghost all = files.deep_view();
    assert(all.skip(0) =~= all);
    let mut i: usize = 0;
    while i < files.len()
        invariant
            i <= files.len(),
            all == files.deep_view(),
            first_suitable(all, os@, arch@, kind@) == first_suitable(
                all.skip(i as int),
                os@,
                arch@,
                kind@,
            ),
        decreases files.len() - i,
    {
        let file = &files[i];
        proof {
            assert(all.skip(i as int)[0] == file@);
            assert(all.skip(i as int).drop_first() =~= all.skip(i + 1));
        }
        if text_eq(file.os.as_str(), os) && text_eq(file.arch.as_str(), arch) && text_eq(
            file.kind.as_str(),
            kind,
        ) {
            return Some(file);
        }
        i += 1;
    }
    None
}

/// Chooses the file to install from a catalog.
///
/// Releases are read in catalog order and the files of each in listed order;
/// the first file whose system, architecture and kind all equal the ones
/// asked for is returned. Versions are not compared. `None` means that no
/// file of any release suits.
pub fn select<'a>(catalog: &'a Vec<Release>, os: &str, arch: &str, kind: &str) -> (found: Option<
    &'a ReleaseFile,
>)
    ensures
        match found {
            Some(file) => selected(catalog.deep_view(), os@, arch@, kind@) == Some(file@),
            None => selected(catalog.deep_view(), os@, arch@, kind@) is None,
        },
{
    let ghost all = catalog.deep_view();
    let mut r: usize = 0;
    while r < catalog.len()
        invariant
            r <= catalog.len(),
            all == catalog.deep_view(),
            first_suitable(all.take(r as int).flatten(), os@, arch@, kind@) is None,
        decreases catalog.len() - r,
    {
        let found = first_in_release(&catalog[r].files, os, arch, kind);
        proof {
            let done = all.take(r as int);
            assert(all.take(r + 1) =~= done.push(all[r as int]));
            done.lemma_flatten_push(all[r as int]);
            first_suitable_of_concat(done.flatten(), all[r as int], os@, arch@, kind@);
            if found is Some {
                let rest = all.skip(r + 1);
                assert(all =~= all.take(r + 1) + rest);
                vstd::seq_lib::lemma_flatten_concat(all.take(r + 1), rest);
                first_suitable_of_concat(
                    all.take(r + 1).flatten(),
                    rest.flatten(),
                    os@,
                    arch@,
                    kind@,
                );
            }
        }
        if found.is_some() {
            return found;
        }
        r += 1;
    }
    assert(all.take(r as int) =~= all);
    None
}

} // verus!
