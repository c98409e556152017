use vstd::prelude::*;
use crate::text::str_equal;
use crate::utils::{extension_of, file_extension, has_dot, is_safe_url, law_extension_splits_name, safe_url};

verus! {

/// The directory that `web` serves: ".uploads" when none is given.
pub fn upload_root(dir: &str) -> (d: String)
    ensures
        d@ == (if dir@.len() == 0 {
            ".uploads"@
        } else {
            dir@
        }),
{
    if dir.unicode_len() == 0 {
        String::from_str(".uploads")
    } else {
        String::from_str(dir)
    }
}

/// How an upload request is answered before its file is stored.
#[derive(Debug, Clone, Copy, PartialEq, Eq, Structural)]
pub enum UploadCheck {
    /// 400 "Bad path": the target path is not safe.
    BadPath,
    /// 401 "Unauthorized": no Authorization header, or the wrong token.
    Unauthorized,
    /// The upload may be stored.
    Accepted,
}

/// Checks an upload to `path` carrying the Authorization header `header`
/// against the server's `token`; the path is checked first.
pub fn check_upload(path: &String, token: &str, header: Option<&str>) -> (c: UploadCheck)
    ensures
        c == (if !safe_url(path@) {
            UploadCheck::BadPath
        } else {
            match header {
                Some(h) => if h@ == token@ {
                    UploadCheck::Accepted
                } else {
                    UploadCheck::Unauthorized
                },
                None => UploadCheck::Unauthorized,
            }
        }),
{
    if !is_safe_url(path) {
        return UploadCheck::BadPath;
    }
    match header {
        Some(h) => if str_equal(token, h) {
            UploadCheck::Accepted
        } else {
            UploadCheck::Unauthorized
        },
        None => UploadCheck::Unauthorized,
    }
}

/// What kind of file an upload is, by the extension of its file name.
#[derive(Debug)]
pub enum UploadKind {
    /// A gzip-compressed tar archive, unpacked next to the stored file.
    TarGz,
    Zip,
    Html,
    /// Any other extension.
    Other(String),
    /// The file name has no dot.
    NoExtension,
}

/// The extension as the server treats it: "tgz" counts as "tar.gz".
pub open spec fn normalized_extension(e: Seq<char>) -> Seq<char> {
    if e == "tgz"@ {
        "tar.gz"@
    } else {
        e
    }
}

pub open spec fn upload_kind_fits(name: Seq<char>, k: UploadKind) -> bool {
    if !has_dot(name) {
        k is NoExtension
    } else {
        let e = normalized_extension(extension_of(name)->0);
        if e == "tar.gz"@ {
            k is TarGz
        } else if e == "zip"@ {
            k is Zip
        } else if e == "html"@ {
            k is Html
        } else {
            k matches UploadKind::Other(o) && o@ == e
        }
    }
}

/// Classifies an uploaded file by its name. A name that holds a dot must have
/// an extension (it must not end with its last dot).
pub fn upload_kind(name: &str) -> (k: UploadKind)
    requires
        has_dot(name@) ==> extension_of(name@) is Some,
    ensures
        upload_kind_fits(name@, k),
{
    match file_extension(name) {
        None => UploadKind::NoExtension,
        Some(e) => {
            proof {
                law_extension_splits_name(name@);
                let d = name@.len() - e@.len() - 1;
                assert(name@[d] == '.');
                reveal_strlit("tar.gz");
                assert(e@ != "tar.gz"@) by {
                    if e@ == "tar.gz"@ {
                        assert(e@[3] == '.');
                    }
                }
            }
            if str_equal(e, "tgz") {
                UploadKind::TarGz
            } else if str_equal(e, "zip") {
                UploadKind::Zip
            } else if str_equal(e, "html") {
                UploadKind::Html
            } else {
                UploadKind::Other(String::from_str(e))
            }
        },
    }
}

proof fn lemma_literals_differ()
    ensures
        "tgz"@ != "zip"@,
        "tgz"@ != "html"@,
        "zip"@ != "html"@,
        "tar.gz"@ != "zip"@,
        "tar.gz"@ != "html"@,
        "tar.gz"@[3] == '.',
        "tar.gz"@.len() == 6,
{
    reveal_strlit("tgz");
    reveal_strlit("zip");
    reveal_strlit("html");
    reveal_strlit("tar.gz");
    assert("tgz"@[0] != "zip"@[0]);
    assert("tgz"@.len() != "html"@.len());
    assert("zip"@.len() != "html"@.len());
    assert("tar.gz"@.len() != "zip"@.len());
    assert("tar.gz"@.len() != "html"@.len());
}

/// Law: an upload is a gzip tar archive exactly when the text after its
/// name's last dot is "tgz"; it is a zip or html file exactly when that text is
/// "zip" or "html"; any other extension `e` gives `Other(e)`; a name without a
/// dot has no extension.
pub proof fn law_upload_kind_by_extension(name: Seq<char>, k: UploadKind)
    requires
        upload_kind_fits(name, k),
        (exists|i: int| 0 <= i < name.len() && name[i] == '.') ==> extension_of(name) is Some,
    ensures
        (forall|i: int| 0 <= i < name.len() ==> name[i] != '.') ==> k is NoExtension,
        (exists|i: int| 0 <= i < name.len() && name[i] == '.') ==> {
            let e = extension_of(name)->0;
            &&& (k is TarGz <==> e == "tgz"@)
            &&& (k is Zip <==> e == "zip"@)
            &&& (k is Html <==> e == "html"@)
            &&& (e != "tgz"@ && e != "zip"@ && e != "html"@ ==> (k is Other && k->Other_0@ == e))
        },
{
    lemma_literals_differ();
    if has_dot(name) {
        law_extension_splits_name(name);
        let e = extension_of(name)->0;
        if e == "tar.gz"@ {
            assert(e[3] == '.');
            assert(has_dot(e));
        }
    }
}

} // verus!
