use vstd::prelude::*;

verus! {

/// A Unicode control character: general category Cc, that is U+0000..=U+001F
/// and U+007F..=U+009F (what `char::is_control` tests).
pub open spec fn is_control(c: char) -> bool {
    c <= '\u{1f}' || ('\u{7f}' <= c && c <= '\u{9f}')
}

/// ASCII whitespace as `char::is_ascii_whitespace` defines it:
/// space, tab, line feed, form feed and carriage return.
pub open spec fn is_ascii_whitespace(c: char) -> bool {
    c == ' ' || c == '\t' || c == '\n' || c == '\u{0c}' || c == '\r'
}

/// ASCII punctuation as `char::is_ascii_punctuation` defines it.
pub open spec fn is_ascii_punctuation(c: char) -> bool {
    ||| ('!' <= c && c <= '/')
    ||| (':' <= c && c <= '@')
    ||| ('[' <= c && c <= '`')
    ||| ('{' <= c && c <= '~')
}

/// A character that may appear in an upload path.
pub open spec fn is_allowed_url_char(c: char) -> bool {
    &&& !is_control(c)
    &&& !is_ascii_whitespace(c)
    &&& (is_ascii_punctuation(c) ==> (c == '_' || c == '-' || c == '/' || c == '.'))
}

/// The text holds two consecutive dots.
pub open spec fn has_double_dot(s: Seq<char>) -> bool {
    exists|i: int| 0 <= i && i + 1 < s.len() && #[trigger] s[i] == '.' && s[i + 1] == '.'
}

/// An upload path is safe when it holds no ".." and only allowed characters.
pub open spec fn safe_url(s: Seq<char>) -> bool {
    &&& !has_double_dot(s)
    &&& forall|i: int| 0 <= i < s.len() ==> is_allowed_url_char(#[trigger] s[i])
}

fn allowed_url_char(c: char) -> (r: bool)
    ensures
        r == is_allowed_url_char(c),
{
    if c <= '\u{1f}' || ('\u{7f}' <= c && c <= '\u{9f}') {
        return false;
    }
    if c == ' ' || c == '\t' || c == '\n' || c == '\u{0c}' || c == '\r' {
        return false;
    }
    let punct = ('!' <= c && c <= '/') || (':' <= c && c <= '@') || ('[' <= c && c <= '`') || ('{'
        <= c && c <= '~');
    !punct || c == '_' || c == '-' || c == '/' || c == '.'
}

/// Tells whether `s` may be used as a path below the upload directory:
/// it holds no "..", no control character, no ASCII whitespace, and no ASCII
/// punctuation other than `_`, `-`, `/` and `.`.
pub fn is_safe_url(s: &String) -> (safe: bool)
    ensures
        safe == safe_url(s@),
{
    let t = s.as_str();
    let n = t.unicode_len();
    let mut i: usize = 0;
    let mut prev_dot = false;
    while i < n
        invariant
            t@ == s@,
            n == s@.len(),
            i <= n,
            prev_dot == (i > 0 && s@[i - 1] == '.'),
            forall|j: int| 0 <= j < i ==> is_allowed_url_char(#[trigger] s@[j]),
            forall|j: int| 0 <= j && j + 1 < i ==> !(#[trigger] s@[j] == '.' && s@[j + 1] == '.'),
        decreases n - i,
    {
        let c = t.get_char(i);
        if !allowed_url_char(c) {
            assert(!is_allowed_url_char(s@[i as int]));
            return false;
        }
        if c == '.' && prev_dot {
            assert(s@[i - 1] == '.' && s@[(i - 1) + 1] == '.');
            return false;
        }
        prev_dot = c == '.';
        i += 1;
    }
    true
}

/// Index of the last occurrence of `c` in `s`, or -1 when there is none.
pub open spec fn last_index_of(s: Seq<char>, c: char) -> int
    decreases s.len(),
{
    if s.len() == 0 {
        -1
    } else if s.last() == c {
        s.len() - 1
    } else {
        last_index_of(s.drop_last(), c)
    }
}

/// The extension of a file name: the text after its last dot, when that text
/// is not empty.
pub open spec fn extension_of(s: Seq<char>) -> Option<Seq<char>> {
    let i = last_index_of(s, '.');
    if 0 <= i && i + 1 < s.len() {
        Some(s.skip(i + 1))
    } else {
        None
    }
}

/// `last_index_of` names the last occurrence, and no later one exists.
pub proof fn lemma_last_index_of(s: Seq<char>, c: char)
    ensures
        -1 <= last_index_of(s, c) < s.len(),
        last_index_of(s, c) >= 0 ==> s[last_index_of(s, c)] == c,
        forall|j: int| last_index_of(s, c) < j < s.len() ==> s[j] != c,
    decreases s.len(),
{
    if s.len() > 0 && s.last() != c {
        let t = s.drop_last();
        lemma_last_index_of(t, c);
        assert forall|j: int| last_index_of(s, c) < j < s.len() implies s[j] != c by {
            if j < s.len() - 1 {
                assert(s[j] == t[j]);
            }
        }
    }
}

/// Returns the extension of `path`: the text after its last `.`, or `None`
/// when `path` has no dot or ends with one.
pub fn file_extension(path: &str) -> (ext: Option<&str>)
    ensures
        match ext {
            Some(e) => extension_of(path@) == Some(e@),
            None => extension_of(path@) is None,
        },
{
    let n = path.unicode_len();
    let mut i: usize = 0;
    let mut last: Option<usize> = None;
    while i < n
        invariant
            n == path@.len(),
            i <= n,
            match last {
                Some(k) => k == last_index_of(path@.take(i as int), '.'),
                None => last_index_of(path@.take(i as int), '.') == -1,
            },
        decreases n - i,
    {
        proof {
            lemma_last_index_of(path@.take(i as int), '.');
            assert(path@.take(i + 1).drop_last() =~= path@.take(i as int));
        }
        if path.get_char(i) == '.' {
            last = Some(i);
        }
        i += 1;
    }
    assert(path@.take(n as int) =~= path@);
    proof {
        lemma_last_index_of(path@, '.');
    }
    match last {
        Some(k) => {
            if k + 1 < n {
                Some(path.substring_char(k + 1, n))
            } else {
                None
            }
        },
        None => None,
    }
}

/// The text holds a dot.
pub open spec fn has_dot(s: Seq<char>) -> bool {
    exists|i: int| 0 <= i < s.len() && s[i] == '.'
}

proof fn lemma_last_index_at(s: Seq<char>, c: char, k: int)
    requires
        0 <= k < s.len(),
        s[k] == c,
        forall|j: int| k < j < s.len() ==> s[j] != c,
    ensures
        last_index_of(s, c) == k,
{
    lemma_last_index_of(s, c);
}

/// Law: an extension is never empty and holds no dot, and the name is the text
/// before it, a dot, and the extension.
pub proof fn law_extension_splits_name(name: Seq<char>)
    requires
        extension_of(name) is Some,
    ensures
        ({
            let e = extension_of(name)->0;
            &&& e.len() > 0
            &&& !has_dot(e)
            &&& name == name.take(name.len() - e.len() - 1) + seq!['.'] + e
        }),
{
    lemma_last_index_of(name, '.');
    let i = last_index_of(name, '.');
    let e = name.skip(i + 1);
    assert forall|j: int| 0 <= j < e.len() implies e[j] != '.' by {
        assert(e[j] == name[i + 1 + j]);
    }
    assert(name.take(i) + seq!['.'] + e =~= name);
}

/// Law: the text after a name's last dot is its extension, when it is not
/// empty.
pub proof fn law_extension_of_joined(stem: Seq<char>, ext: Seq<char>)
    requires
        ext.len() > 0,
        !has_dot(ext),
    ensures
        extension_of(stem + seq!['.'] + ext) == Some(ext),
{
    let s = stem + seq!['.'] + ext;
    let k = stem.len() as int;
    assert forall|j: int| k < j < s.len() implies s[j] != '.' by {
        assert(s[j] == ext[j - k - 1]);
    }
    lemma_last_index_at(s, '.', k);
    assert(s.skip(k + 1) =~= ext);
}

/// Law: among ASCII characters a safe upload path holds only letters, digits,
/// `_`, `-`, `/` and `.`.
pub proof fn law_safe_url_ascii_charset(s: Seq<char>, i: int)
    requires
        safe_url(s),
        0 <= i < s.len(),
        s[i] <= '\u{7f}',
    ensures
        ({
            let c = s[i];
            ||| ('a' <= c && c <= 'z')
            ||| ('A' <= c && c <= 'Z')
            ||| ('0' <= c && c <= '9')
            ||| c == '_'
            ||| c == '-'
            ||| c == '/'
            ||| c == '.'
        }),
{
    assert(is_allowed_url_char(s[i]));
}

/// Law: a character may appear in an upload path exactly when it is an ASCII
/// letter of either case, an ASCII digit, one of `_`, `-`, `/`, `.`, or a
/// character at or above U+00A0 (every non-ASCII character that is not a C1
/// control character).
pub proof fn law_allowed_url_chars(c: char)
    ensures
        is_allowed_url_char(c) <==> {
            ||| ('a' <= c && c <= 'z')
            ||| ('A' <= c && c <= 'Z')
            ||| ('0' <= c && c <= '9')
            ||| c == '_'
            ||| c == '-'
            ||| c == '/'
            ||| c == '.'
            ||| c >= '\u{a0}'
        },
{
}

/// Law: an upload path is safe exactly when no two consecutive characters are
/// both dots and every character is an ASCII letter (either case), an ASCII
/// digit, one of `_`, `-`, `/`, `.`, or a character at or above U+00A0.
pub proof fn law_safe_url_exactly(s: Seq<char>)
    ensures
        safe_url(s) <==> {
            &&& forall|i: int| 0 <= i && i + 1 < s.len() ==> !(#[trigger] s[i] == '.' && s[i + 1] == '.')
            &&& forall|i: int| 0 <= i < s.len() ==> {
                let c = #[trigger] s[i];
                ||| ('a' <= c && c <= 'z')
                ||| ('A' <= c && c <= 'Z')
                ||| ('0' <= c && c <= '9')
                ||| c == '_'
                ||| c == '-'
                ||| c == '/'
                ||| c == '.'
                ||| c >= '\u{a0}'
            }
        },
{
    assert forall|i: int| 0 <= i < s.len() implies is_allowed_url_char(#[trigger] s[i]) == {
        let c = s[i];
        ||| ('a' <= c && c <= 'z')
        ||| ('A' <= c && c <= 'Z')
        ||| ('0' <= c && c <= '9')
        ||| c == '_'
        ||| c == '-'
        ||| c == '/'
        ||| c == '.'
        ||| c >= '\u{a0}'
    } by {
        law_allowed_url_chars(s[i]);
    }
}

} // verus!
