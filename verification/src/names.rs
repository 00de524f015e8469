//! Destination-name computation: the path sanitizer that strips characters a
//! filesystem refuses, and extension detection on an audio filename.

use vstd::prelude::*;
use crate::text::push_char;

verus! {

/// The fixed forbidden-character set that may not appear in a destination
/// filename.
pub open spec fn is_forbidden(c: char) -> bool {
    c == '<' || c == '>' || c == '/' || c == '\\' || c == '*' || c == '?' || c == '"' || c == ':'
        || c == '|'
}

/// Decides membership in the forbidden-character set.
pub fn forbidden_char(c: char) -> (r: bool)
    ensures
        r == is_forbidden(c),
{
    c == '<' || c == '>' || c == '/' || c == '\\' || c == '*' || c == '?' || c == '"' || c == ':'
        || c == '|'
}

/// A display title with every forbidden character removed; all other
/// characters are kept in order.
pub open spec fn spec_sanitize(s: Seq<char>) -> Seq<char>
    decreases s.len(),
{
    if s.len() == 0 {
        Seq::empty()
    } else {
        let rest = spec_sanitize(s.drop_last());
        if is_forbidden(s.last()) {
            rest
        } else {
            rest.push(s.last())
        }
    }
}

/// The destination filename for a title and a detected extension: the
/// sanitized title, a dot, then the extension.
pub open spec fn spec_file_name(title: Seq<char>, ext: Seq<char>) -> Seq<char> {
    spec_sanitize(title) + "."@ + ext
}

/// Removes every forbidden character from a display title. Total: never
/// fails, and an all-forbidden title yields the empty string.
pub fn sanitize_title(title: &str) -> (r: String)
    ensures
        r@ == spec_sanitize(title@),
{
    let len = title.unicode_len();
    let mut out = String::new();
    proof {
        assert(title@.subrange(0, 0) =~= Seq::<char>::empty());
    }
    let mut i: usize = 0;
    while i < len
        invariant
            i <= len,
            len == title@.len(),
            out@ == spec_sanitize(title@.subrange(0, i as int)),
        decreases len - i,
    {
        let c = title.get_char(i);
        if !forbidden_char(c) {
            push_char(&mut out, c);
        }
        proof {
            assert(title@.subrange(0, i + 1).drop_last() =~= title@.subrange(0, i as int));
            assert(title@.subrange(0, i + 1).last() == title@[i as int]);
        }
        i = i + 1;
    }
    proof {
        assert(title@.subrange(0, len as int) =~= title@);
    }
    out
}

/// Builds the sanitized destination filename from a title and an extension.
pub fn sanitize_file_name(title: &str, ext: &str) -> (r: String)
    ensures
        r@ == spec_file_name(title@, ext@),
{
    sanitize_title(title).concat(".").concat(ext)
}

/// Sanitizer totality: every character of a sanitized title lies outside the
/// forbidden set, whatever the input was.
pub proof fn lemma_sanitize_removes_forbidden(s: Seq<char>)
    ensures
        forall|i: int|
            0 <= i < spec_sanitize(s).len() ==> !is_forbidden(#[trigger] spec_sanitize(s)[i]),
    decreases s.len(),
{
    if s.len() > 0 {
        lemma_sanitize_removes_forbidden(s.drop_last());
        let rest = spec_sanitize(s.drop_last());
        assert forall|i: int|
            0 <= i < spec_sanitize(s).len() implies !is_forbidden(
            #[trigger] spec_sanitize(s)[i],
        ) by {
            if !is_forbidden(s.last()) && i < rest.len() {
                assert(spec_sanitize(s)[i] == rest[i]);
            }
        }
    }
}

/// The extension of a filename: the characters after the last dot, if the
/// name holds a dot at all.
pub open spec fn spec_extension(s: Seq<char>) -> Option<Seq<char>>
    decreases s.len(),
{
    if s.len() == 0 {
        None
    } else if s.last() == '.' {
        Some(Seq::empty())
    } else {
        match spec_extension(s.drop_last()) {
            None => None,
            Some(e) => Some(e.push(s.last())),
        }
    }
}

proof fn lemma_extension_after_dot(s: Seq<char>, d: int)
    requires
        0 <= d < s.len(),
        s[d] == '.',
        forall|k: int| d < k < s.len() ==> s[k] != '.',
    ensures
        spec_extension(s) == Some(s.subrange(d + 1, s.len() as int)),
    decreases s.len(),
{
    if d == s.len() - 1 {
        assert(s.subrange(d + 1, s.len() as int) =~= Seq::<char>::empty());
    } else {
        let t = s.drop_last();
        assert(forall|k: int| d < k < t.len() ==> t[k] != '.');
        lemma_extension_after_dot(t, d);
        assert(s.subrange(d + 1, s.len() as int) =~= t.subrange(d + 1, t.len() as int).push(
            s.last(),
        ));
    }
}

proof fn lemma_extension_no_dot(s: Seq<char>)
    requires
        forall|k: int| 0 <= k < s.len() ==> s[k] != '.',
    ensures
        spec_extension(s) is None,
    decreases s.len(),
{
    if s.len() > 0 {
        lemma_extension_no_dot(s.drop_last());
    }
}

/// Detects the extension of a filename: the substring after the last dot if
/// one is present, else nothing. Absence is not an error by itself; callers
/// decide.
pub fn extension_of<'a>(name: &'a str) -> (r: Option<&'a str>)
    ensures
        match r {
            Some(e) => spec_extension(name@) == Some(e@),
            None => spec_extension(name@) is None,
        },
{
    let len = name.unicode_len();
    let mut j: usize = len;
    while j > 0
        invariant
            j <= len,
            len == name@.len(),
            forall|k: int| j <= k < len ==> name@[k] != '.',
        decreases j,
    {
        if name.get_char(j - 1) == '.' {
            let e = name.substring_char(j, len);
            proof {
                lemma_extension_after_dot(name@, j - 1);
            }
            return Some(e);
        }
        j = j - 1;
    }
    proof {
        lemma_extension_no_dot(name@);
    }
    None
}

} // verus!
