//! Comparable spelling of filesystem paths.

use vstd::prelude::*;
use vstd::string::*;

verus! {

/// How paths are spelled on the platform whose files are tracked.
#[derive(Clone, Copy, Debug, PartialEq, Eq, Structural)]
pub enum PathStyle {
    /// Case matters and no prefix is special: only separators are unified.
    Posix,
    /// Verbatim prefixes are removed and case is folded as well.
    Windows,
}

/// The four characters that open a verbatim path once separators are unified.
pub open spec fn verbatim_prefix() -> Seq<char> {
    seq!['/', '/', '?', '/']
}

/// The eight characters that open a verbatim UNC path once separators are unified.
pub open spec fn unc_prefix() -> Seq<char> {
    seq!['/', '/', '?', '/', 'U', 'N', 'C', '/']
}

/// `s` begins with the characters of `prefix`.
pub open spec fn begins_with(s: Seq<char>, prefix: Seq<char>) -> bool {
    prefix.len() <= s.len() && s.subrange(0, prefix.len() as int) == prefix
}

/// `s` with every occurrence of `from` replaced by `to`.
pub open spec fn substituted(s: Seq<char>, from: char, to: char) -> Seq<char> {
    Seq::new(s.len(), |i: int| if s[i] == from { to } else { s[i] })
}

/// `s` with every backslash turned into a forward slash.
pub open spec fn slashed(s: Seq<char>) -> Seq<char> {
    substituted(s, '\\', '/')
}

/// `s` without its verbatim prefix: the UNC form keeps a plain double
/// separator, the plain form loses the prefix, anything else is unchanged.
pub open spec fn stripped(s: Seq<char>) -> Seq<char> {
    if begins_with(s, unc_prefix()) {
        seq!['/', '/'] + s.skip(8)
    } else if begins_with(s, verbatim_prefix()) {
        s.skip(4)
    } else {
        s
    }
}

/// The lowercase form that `str::to_lowercase` gives to a text.
pub uninterp spec fn lowercase_of(s: Seq<char>) -> Seq<char>;

/// The comparable spelling of a path.
pub open spec fn normalize_spec(path: Seq<char>, style: PathStyle) -> Seq<char> {
    match style {
        PathStyle::Posix => slashed(path),
        PathStyle::Windows => lowercase_of(stripped(slashed(path))),
    }
}

/// A text that normalization leaves as it is: no backslash, and under
/// `Windows` no verbatim prefix and nothing that lowercasing would change.
pub open spec fn is_normal_form(s: Seq<char>, style: PathStyle) -> bool {
    &&& forall|i: int| 0 <= i < s.len() ==> s[i] != '\\'
    &&& style == PathStyle::Windows ==> !begins_with(s, verbatim_prefix()) && lowercase_of(s) == s
}

/// At least one of `paths` has the spelling `target`, or there is no path at all.
pub open spec fn paths_match_spec(paths: Seq<String>, target: Seq<char>, style: PathStyle) -> bool {
    paths.len() == 0 || exists|i: int|
        0 <= i < paths.len() && #[trigger] normalize_spec(paths[i]@, style) == target
}

/// Calls `str::replace` with a character as the pattern. With a replacement
/// of exactly one character the result has the length of `s`, and holds that
/// character wherever `s` holds `from`.
#[verifier::external_body]
fn replace_char(s: &str, from: char, to: &str) -> (r: String)
    requires
        to@.len() == 1,
    ensures
        r@ == substituted(s@, from, to@[0]),
{
    s.replace(from, to)
}

/// Calls `str::to_lowercase`. The result depends on the text alone, and is
/// what the contracts call `lowercase_of`; nothing more is claimed of it.
#[verifier::external_body]
fn to_lowercase(s: &str) -> (r: String)
    ensures
        r@ == lowercase_of(s@),
{
    s.to_lowercase()
}

/// Tells whether `s`, of `len` characters, begins with `prefix`.
fn has_prefix(s: &str, len: usize, prefix: &str) -> (r: bool)
    requires
        len == s@.len(),
    ensures
        r == begins_with(s@, prefix@),
{
    let plen: usize = prefix.unicode_len();
    if plen > len {
        return false;
    }
    let mut i: usize = 0;
    while i < plen
        invariant
            plen == prefix@.len(),
            plen <= len,
            len == s@.len(),
            i <= plen,
            forall|j: int| 0 <= j < i ==> s@[j] == prefix@[j],
        decreases plen - i,
    {
        if s.get_char(i) != prefix.get_char(i) {
            assert(s@.subrange(0, plen as int)[i as int] != prefix@[i as int]);
            return false;
        }
        i += 1;
    }
    assert(s@.subrange(0, plen as int) =~= prefix@);
    true
}

/// Gives `path` its comparable spelling: separators become `/`; under
/// `PathStyle::Windows` a verbatim prefix is removed and the text lowercased.
pub fn normalize_path(path: &str, style: PathStyle) -> (r: String)
    ensures
        r@ == normalize_spec(path@, style),
{
    proof {
        reveal_strlit("/");
        reveal_strlit("//");
        reveal_strlit("//?/");
        reveal_strlit("//?/UNC/");
    }
    let unified = replace_char(path, '\\', "/");
    match style {
        PathStyle::Posix => unified,
        PathStyle::Windows => {
            let s = unified.as_str();
            let len: usize = s.unicode_len();
            assert("//?/UNC/"@ =~= unc_prefix());
            assert("//?/"@ =~= verbatim_prefix());
            assert("//"@ =~= seq!['/', '/']);
            if has_prefix(s, len, "//?/UNC/") {
                let rest = s.substring_char(8, len);
                assert(rest@ =~= s@.skip(8));
                let plain = String::from_str("//").concat(rest);
                to_lowercase(plain.as_str())
            } else if has_prefix(s, len, "//?/") {
                let rest = s.substring_char(4, len);
                assert(rest@ =~= s@.skip(4));
                to_lowercase(rest)
            } else {
                to_lowercase(s)
            }
        },
    }
}

/// Tells whether an event that names `event_paths` concerns the file whose
/// comparable spelling is `target`. An event that names no path concerns it.
pub fn paths_match(event_paths: &[String], target: &str, style: PathStyle) -> (r: bool)
    ensures
        r == paths_match_spec(event_paths@, target@, style),
{
    if event_paths.len() == 0 {
        return true;
    }
    let wanted = String::from_str(target);
    let mut i: usize = 0;
    while i < event_paths.len()
        invariant
            i <= event_paths.len(),
            wanted@ == target@,
            forall|j: int| 0 <= j < i ==> normalize_spec(event_paths@[j]@, style) != target@,
        decreases event_paths.len() - i,
    {
        let candidate = normalize_path(event_paths[i].as_str(), style);
        if candidate == wanted {
            return true;
        }
        i += 1;
    }
    false
}

/// Unifying separators twice changes nothing more than unifying them once.
pub proof fn slashed_is_idempotent(path: Seq<char>)
    ensures
        slashed(slashed(path)) == slashed(path),
{
    assert(slashed(slashed(path)) =~= slashed(path));
}

/// Two spellings that differ in nothing but the kind of separator are one
/// path.
pub proof fn separators_do_not_matter(a: Seq<char>, b: Seq<char>, style: PathStyle)
    requires
        slashed(a) == slashed(b),
    ensures
        normalize_spec(a, style) == normalize_spec(b, style),
{
}

/// No comparable spelling under `Posix` holds a backslash.
pub proof fn posix_spelling_has_no_backslash(path: Seq<char>, i: int)
    requires
        0 <= i < path.len(),
    ensures
        normalize_spec(path, PathStyle::Posix).len() == path.len(),
        normalize_spec(path, PathStyle::Posix)[i] != '\\',
{
}

/// A text in normal form is its own comparable spelling.
pub proof fn normal_form_is_fixed(s: Seq<char>, style: PathStyle)
    requires
        is_normal_form(s, style),
    ensures
        normalize_spec(s, style) == s,
{
    assert(slashed(s) =~= s);
    if style == PathStyle::Windows {
        if begins_with(s, unc_prefix()) {
            assert(s.subrange(0, 4) =~= s.subrange(0, 8).subrange(0, 4));
            assert(unc_prefix().subrange(0, 4) =~= verbatim_prefix());
        }
    }
}

/// Normalizing is idempotent. Under `Posix` this holds of every path. Under
/// `Windows` it holds where the first result is in normal form: a result
/// that still opens with a verbatim prefix loses it the second time.
pub proof fn normalize_is_idempotent(path: Seq<char>, style: PathStyle)
    requires
        style == PathStyle::Windows ==> is_normal_form(normalize_spec(path, style), style),
    ensures
        normalize_spec(normalize_spec(path, style), style) == normalize_spec(path, style),
{
    match style {
        PathStyle::Posix => slashed_is_idempotent(path),
        PathStyle::Windows => normal_form_is_fixed(normalize_spec(path, style), style),
    }
}

} // verus!
