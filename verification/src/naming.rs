//! Names for the temporary input file and for the files a run may leave.
//!
//! The stem of an input file is the stem of the name the caller supplied, or
//! a default, followed by `_` and the time in milliseconds. Its extension is
//! `qmd` where the supplied one is `qmd` in any ASCII case, and `md`
//! otherwise.

use crate::text::{
    concat3, decimal, decimal_string, is_digit, lemma_decimal_digits, lemma_decimal_injective,
    to_chars,
};
use vstd::prelude::*;

verus! {

// ---------------------------------------------------------------------------
// Paths of the host
// ---------------------------------------------------------------------------

/// `c` has a meaning in paths on some host: it parts components or ends a
/// prefix.
pub open spec fn is_path_mark(c: char) -> bool {
    c == '/' || c == '\\' || c == ':'
}

/// A name that is a single file name on every host: not empty, not `.` or
/// `..`, and free of `/`, `\` and `:`.
pub open spec fn is_plain_name(name: Seq<char>) -> bool {
    &&& name.len() > 0
    &&& name != seq!['.']
    &&& name != seq!['.', '.']
    &&& forall|i: int| 0 <= i < name.len() ==> !is_path_mark(#[trigger] name[i])
}

/// The index of the last `.` in `name`, or `-1` where there is none.
pub open spec fn last_dot(name: Seq<char>) -> int
    decreases name.len(),
{
    if name.len() == 0 {
        -1
    } else if name.last() == '.' {
        name.len() - 1
    } else {
        last_dot(name.drop_last())
    }
}

/// The stem of a file name: what stands in front of the last `.`, and the
/// whole name where there is no `.` or only a leading one.
pub open spec fn stem_of(name: Seq<char>) -> Seq<char> {
    if last_dot(name) <= 0 {
        name
    } else {
        name.subrange(0, last_dot(name))
    }
}

/// The extension of a file name: what stands behind the last `.`, and none
/// where there is no `.` or only a leading one.
pub open spec fn extension_of(name: Seq<char>) -> Option<Seq<char>> {
    if last_dot(name) <= 0 {
        None
    } else {
        Some(name.subrange(last_dot(name) + 1, name.len() as int))
    }
}

/// The index of the last `/` in `path`, or `-1` where there is none.
pub open spec fn last_slash(path: Seq<char>) -> int
    decreases path.len(),
{
    if path.len() == 0 {
        -1
    } else if path.last() == '/' {
        path.len() - 1
    } else {
        last_slash(path.drop_last())
    }
}

/// What stands behind the last `/` of `path`: the whole of it where there
/// is no `/`.
pub open spec fn final_part(path: Seq<char>) -> Seq<char> {
    path.subrange(last_slash(path) + 1, path.len() as int)
}

/// `path` holds no `\` and does not begin with `//`: no host reads a prefix
/// or another separator than `/` into it.
pub open spec fn is_slash_path(path: Seq<char>) -> bool {
    &&& forall|i: int| 0 <= i < path.len() ==> #[trigger] path[i] != '\\'
    &&& !(path.len() >= 2 && path[0] == '/' && path[1] == '/')
}

/// The file name that every host finds in `path`, where there is one: in a
/// path parted by `/` alone, the plain name behind the last `/`. `None`
/// where the hosts may differ.
pub open spec fn sure_file_name(path: Seq<char>) -> Option<Seq<char>> {
    if is_slash_path(path) && is_plain_name(final_part(path)) {
        Some(final_part(path))
    } else {
        None
    }
}

/// `path` ends in a file name on every host, though the hosts may differ on
/// where the name begins: it is a slash path and ends neither in a
/// separator, nor in `:`, nor in `.`.
pub open spec fn ends_in_name(path: Seq<char>) -> bool {
    &&& is_slash_path(path)
    &&& path.len() > 0
    &&& path.last() != '/'
    &&& path.last() != ':'
    &&& path.last() != '.'
}

/// `name` is a file name, not empty, at the end of `path`.
pub open spec fn is_end_of(name: Option<Seq<char>>, path: Seq<char>) -> bool {
    name matches Some(n) && n.len() > 0 && n.is_suffix_of(path)
}

/// What the host may put between a directory and a name: nothing, or one
/// separator.
pub open spec fn is_gap(gap: Seq<char>) -> bool {
    gap.len() == 0 || gap == seq!['/'] || gap == seq!['\\']
}

/// `path` is `dir`, at most one separator, and `name`.
pub open spec fn joins(path: Seq<char>, dir: Seq<char>, name: Seq<char>) -> bool {
    exists|gap: Seq<char>| #[trigger] is_gap(gap) && path == dir + gap + name
}

/// `path` is a path that the host may make of `name` inside `dir`. A plain
/// name stands at the end of its path; where the directory is a slash path,
/// the path is the directory, at most one separator, and the name.
pub open spec fn placed_in(path: Seq<char>, dir: Seq<char>, name: Seq<char>) -> bool {
    is_plain_name(name) ==> name.is_suffix_of(path) && (is_slash_path(dir) ==> joins(
        path,
        dir,
        name,
    ))
}

/// Calls `std::path::Path::file_stem` on `name`. The contract claims the
/// documented stem of the file name wherever every host finds the same file
/// name, and nothing of other texts.
#[verifier::external_body]
pub(crate) fn path_file_stem(name: &str) -> (r: Option<String>)
    ensures
        sure_file_name(name@) matches Some(f) ==> optional_string(r) == Some(stem_of(f)),
{
    std::path::Path::new(name).file_stem().and_then(|s| s.to_str()).map(|s| s.to_owned())
}

/// Calls `std::path::Path::extension` on `name`. The contract claims the
/// documented extension of the file name wherever every host finds the same
/// file name, and nothing of other texts.
#[verifier::external_body]
pub(crate) fn path_extension(name: &str) -> (r: Option<String>)
    ensures
        sure_file_name(name@) matches Some(f) ==> optional_string(r) == extension_of(f),
{
    std::path::Path::new(name).extension().and_then(|s| s.to_str()).map(|s| s.to_owned())
}

/// Calls `std::path::Path::file_name` on `path`. The contract claims the
/// file name wherever every host finds the same one; of a path that ends in
/// a name on every host, that there is a file name, not empty, at the end of
/// the path; and nothing of other texts.
#[verifier::external_body]
pub(crate) fn path_file_name(path: &str) -> (r: Option<String>)
    ensures
        sure_file_name(path@) matches Some(f) ==> optional_string(r) == Some(f),
        ends_in_name(path@) ==> is_end_of(optional_string(r), path@),
{
    std::path::Path::new(path).file_name().map(|s| s.to_string_lossy().into_owned())
}

/// Calls `std::path::Path::join`: the path of `name` inside `dir`. The
/// contract claims that a path extended by a plain name ends with that
/// name, and that it is the directory, at most one separator, and the name
/// where the directory is a slash path (a directory with `\` in it may be
/// rewritten by its host).
#[verifier::external_body]
pub(crate) fn path_join(dir: &str, name: &str) -> (r: String)
    ensures
        placed_in(r@, dir@, name@),
{
    std::path::Path::new(dir).join(name).to_string_lossy().into_owned()
}

// ---------------------------------------------------------------------------
// Names
// ---------------------------------------------------------------------------

/// The text of an optional string.
pub open spec fn optional_text(s: Option<&str>) -> Option<Seq<char>> {
    match s {
        Some(t) => Some(t@),
        None => None,
    }
}

/// The text of an optional owned string.
pub open spec fn optional_string(s: Option<String>) -> Option<Seq<char>> {
    match s {
        Some(t) => Some(t@),
        None => None,
    }
}

/// The stem used where the caller supplied no usable name.
pub open spec fn default_stem() -> Seq<char> {
    "temp_quarto"@
}

/// `stem`, an underscore and the time in decimal.
pub open spec fn stamped_stem(stem: Seq<char>, millis: nat) -> Seq<char> {
    stem + seq!['_'] + decimal(millis)
}

/// The stem of the temporary input file.
pub open spec fn input_stem(hint: Option<Seq<char>>, millis: nat) -> Seq<char> {
    match hint {
        Some(stem) => stamped_stem(stem, millis),
        None => stamped_stem(default_stem(), millis),
    }
}

/// `ext` spells `qmd`, in any ASCII case.
pub open spec fn is_qmd(ext: Seq<char>) -> bool {
    &&& ext.len() == 3
    &&& (ext[0] == 'q' || ext[0] == 'Q')
    &&& (ext[1] == 'm' || ext[1] == 'M')
    &&& (ext[2] == 'd' || ext[2] == 'D')
}

/// The extension of the temporary input file: `qmd` or `md`.
pub open spec fn input_extension(hint: Option<Seq<char>>) -> Seq<char> {
    match hint {
        Some(ext) => if is_qmd(ext) {
            "qmd"@
        } else {
            "md"@
        },
        None => "md"@,
    }
}

/// `stem`, a dot and `ext`.
pub open spec fn file_name(stem: Seq<char>, ext: Seq<char>) -> Seq<char> {
    stem + seq!['.'] + ext
}

/// The extensions a run may leave, in the order in which they are looked for.
pub open spec fn output_extensions() -> Seq<Seq<char>> {
    seq!["html"@, "pdf"@, "pptx"@]
}

/// What is known of the stem and the extension found in a supplied file
/// name: without a name there is neither; where every host finds the same
/// file name in it, they are the stem and the extension of that file name.
pub open spec fn hints_fit(
    orig_name: Option<Seq<char>>,
    stem: Option<Seq<char>>,
    extension: Option<Seq<char>>,
) -> bool {
    match orig_name {
        None => stem is None && extension is None,
        Some(name) => sure_file_name(name) matches Some(f) ==> stem == Some(stem_of(f))
            && extension == extension_of(f),
    }
}

/// The stem and the extension that the host finds in a supplied file name.
/// Without a name there is neither. A plain name, such as `demo.md`, and a
/// plain name behind directories parted by `/`, such as `talks/demo.md`,
/// split at the last `.` on every host: the directories are dropped. What
/// a text with `\` or `:` in it holds as its file name is the host's to
/// say.
pub fn name_hints(orig_name: Option<&str>) -> (r: (Option<String>, Option<String>))
    ensures
        hints_fit(optional_text(orig_name), optional_string(r.0), optional_string(r.1)),
{
    match orig_name {
        Some(name) => (path_file_stem(name), path_extension(name)),
        None => (None, None),
    }
}

/// The stem of the temporary input file for a run at `millis`.
pub fn temp_stem(hint: Option<&str>, millis: u128) -> (r: String)
    ensures
        r@ == input_stem(optional_text(hint), millis as nat),
{
    let stamp = decimal_string(millis);
    proof {
        reveal_strlit("_");
        assert("_"@ =~= seq!['_']);
    }
    match hint {
        Some(stem) => concat3(stem, "_", stamp.as_str()),
        None => concat3("temp_quarto", "_", stamp.as_str()),
    }
}

/// The extension of the temporary input file.
pub fn temp_extension(hint: Option<&str>) -> (r: &'static str)
    ensures
        r@ == input_extension(optional_text(hint)),
{
    match hint {
        Some(ext) => {
            let c = to_chars(ext);
            if c.len() == 3 && (c[0] == 'q' || c[0] == 'Q') && (c[1] == 'm' || c[1] == 'M') && (c[2]
                == 'd' || c[2] == 'D') {
                "qmd"
            } else {
                "md"
            }
        },
        None => "md",
    }
}

/// The name of the file with stem `stem` and extension `ext`.
pub fn named(stem: &str, ext: &str) -> (r: String)
    ensures
        r@ == file_name(stem@, ext@),
{
    proof {
        reveal_strlit(".");
        assert("."@ =~= seq!['.']);
    }
    concat3(stem, ".", ext)
}

/// The extension looked for at position `index`.
pub(crate) fn output_extension(index: usize) -> (r: &'static str)
    requires
        index < output_extensions().len(),
    ensures
        r@ == output_extensions()[index as int],
{
    if index == 0 {
        "html"
    } else if index == 1 {
        "pdf"
    } else {
        "pptx"
    }
}

// ---------------------------------------------------------------------------
// Laws
// ---------------------------------------------------------------------------

/// `s` holds none of the characters that have a meaning in paths.
pub open spec fn free_of_marks(s: Seq<char>) -> bool {
    forall|i: int| 0 <= i < s.len() ==> !is_path_mark(#[trigger] s[i])
}

/// The last `.` lies inside the name, and no `.` follows it.
pub proof fn lemma_last_dot(name: Seq<char>)
    ensures
        -1 <= last_dot(name) < name.len(),
        0 <= last_dot(name) ==> name[last_dot(name)] == '.',
        forall|i: int| last_dot(name) < i < name.len() ==> #[trigger] name[i] != '.',
    decreases name.len(),
{
    if name.len() > 0 && name.last() != '.' {
        lemma_last_dot(name.drop_last());
        assert forall|i: int| last_dot(name) < i < name.len() implies #[trigger] name[i]
            != '.' by {
            if i < name.len() - 1 {
                assert(name.drop_last()[i] == name[i]);
            }
        }
    }
}

/// A plain name is the file name that every host finds in it.
pub proof fn lemma_plain_name_is_sure(name: Seq<char>)
    requires
        is_plain_name(name),
    ensures
        last_slash(name) == -1,
        final_part(name) == name,
        sure_file_name(name) == Some(name),
    decreases name.len(),
{
    lemma_no_slash(name);
    assert(name.subrange(0, name.len() as int) =~= name);
    assert(!is_path_mark(name[0]));
    if name.len() >= 2 {
        assert(!is_path_mark(name[1]));
    }
}

/// A text without `/` has no last `/`.
proof fn lemma_no_slash(path: Seq<char>)
    requires
        forall|i: int| 0 <= i < path.len() ==> #[trigger] path[i] != '/',
    ensures
        last_slash(path) == -1,
    decreases path.len(),
{
    if path.len() > 0 {
        assert(path.last() == path[path.len() - 1]);
        assert forall|i: int| 0 <= i < path.drop_last().len() implies #[trigger] path.drop_last()[i]
            != '/' by {
            assert(path.drop_last()[i] == path[i]);
        }
        lemma_no_slash(path.drop_last());
    }
}

/// A `/` that no `/` follows is the last one.
pub proof fn lemma_last_slash_at(path: Seq<char>, k: int)
    requires
        0 <= k < path.len(),
        path[k] == '/',
        forall|i: int| k < i < path.len() ==> #[trigger] path[i] != '/',
    ensures
        last_slash(path) == k,
    decreases path.len(),
{
    if k < path.len() - 1 {
        let shorter = path.drop_last();
        assert(shorter[k] == path[k]);
        assert forall|i: int| k < i < shorter.len() implies #[trigger] shorter[i] != '/' by {
            assert(shorter[i] == path[i]);
        }
        lemma_last_slash_at(shorter, k);
    }
}

/// A `.` that no `.` follows is the last one.
pub proof fn lemma_last_dot_at(name: Seq<char>, k: int)
    requires
        0 <= k < name.len(),
        name[k] == '.',
        forall|i: int| k < i < name.len() ==> #[trigger] name[i] != '.',
    ensures
        last_dot(name) == k,
    decreases name.len(),
{
    if k < name.len() - 1 {
        let shorter = name.drop_last();
        assert(shorter[k] == name[k]);
        assert forall|i: int| k < i < shorter.len() implies #[trigger] shorter[i] != '.' by {
            assert(shorter[i] == name[i]);
        }
        lemma_last_dot_at(shorter, k);
    }
}

/// The stem and the extension of a plain name are parts of it: they hold
/// none of the characters that have a meaning in paths, and the extension
/// holds no `.`.
pub proof fn law_parts_of_plain_name(name: Seq<char>)
    requires
        is_plain_name(name),
    ensures
        stem_of(name).len() > 0,
        free_of_marks(stem_of(name)),
        extension_of(name) matches Some(e) ==> free_of_marks(e) && !e.contains('.') && name
            == stem_of(name) + seq!['.'] + e,
{
    lemma_last_dot(name);
    let k = last_dot(name);
    if k > 0 {
        let e = name.subrange(k + 1, name.len() as int);
        assert forall|i: int| 0 <= i < e.len() implies !is_path_mark(#[trigger] e[i]) by {
            assert(e[i] == name[k + 1 + i]);
        }
        assert forall|i: int| 0 <= i < e.len() implies e[i] != '.' by {
            assert(e[i] == name[k + 1 + i]);
        }
        assert(name =~= stem_of(name) + seq!['.'] + e);
    }
    assert forall|i: int| 0 <= i < stem_of(name).len() implies !is_path_mark(
        #[trigger] stem_of(name)[i],
    ) by {
        assert(stem_of(name)[i] == name[i]);
    }
}

/// The names made for a run from a stem without path marks are plain: the
/// stamped stem, and that stem with an extension without path marks.
pub proof fn law_staged_names_are_plain(stem: Seq<char>, millis: nat, ext: Seq<char>)
    requires
        free_of_marks(stem),
        free_of_marks(ext),
    ensures
        is_plain_name(stamped_stem(stem, millis)),
        is_plain_name(file_name(stamped_stem(stem, millis), ext)),
{
    lemma_stamp_position(stem, millis);
    lemma_decimal_digits(millis);
    let stamped = stamped_stem(stem, millis);
    assert(stamped[stem.len() as int] == '_');
    assert forall|i: int| 0 <= i < stamped.len() implies !is_path_mark(#[trigger] stamped[i]) by {
        if i < stem.len() {
            assert(stamped[i] == stem[i]);
        } else if i > stem.len() {
            assert(is_digit(stamped[i]));
        }
    }
    assert(stamped != seq!['.']) by {
        if stamped == seq!['.'] {
            assert(stamped.len() == 1);
        }
    }
    assert(stamped != seq!['.', '.']) by {
        if stamped == seq!['.', '.'] {
            assert(stamped.len() == 2);
            assert(stamped[stem.len() as int] == '_');
        }
    }
    let full = file_name(stamped, ext);
    assert forall|i: int| 0 <= i < full.len() implies !is_path_mark(#[trigger] full[i]) by {
        if i < stamped.len() {
            assert(full[i] == stamped[i]);
        } else if i > stamped.len() {
            assert(full[i] == ext[i - stamped.len() - 1]);
        }
    }
    assert(full.len() >= 3);
}

/// Whatever extension is supplied, the input file gets `md` or `qmd`.
pub proof fn law_extension_is_md_or_qmd(hint: Option<Seq<char>>)
    ensures
        input_extension(hint) == "md"@ || input_extension(hint) == "qmd"@,
{
}

/// A stamped stem ends in `_` and digits, and the digits hold no `_`.
proof fn lemma_stamp_position(stem: Seq<char>, millis: nat)
    ensures
        stamped_stem(stem, millis).len() == stem.len() + 1 + decimal(millis).len(),
        stamped_stem(stem, millis)[stem.len() as int] == '_',
        forall|i: int|
            stem.len() < i < stamped_stem(stem, millis).len() ==> is_digit(
                #[trigger] stamped_stem(stem, millis)[i],
            ),
        stamped_stem(stem, millis).subrange(0, stem.len() as int) == stem,
        stamped_stem(stem, millis).subrange(
            stem.len() as int + 1,
            stamped_stem(stem, millis).len() as int,
        ) == decimal(millis),
{
    lemma_decimal_digits(millis);
    let s = stamped_stem(stem, millis);
    assert forall|i: int| stem.len() < i < s.len() implies is_digit(#[trigger] s[i]) by {
        assert(s[i] == decimal(millis)[i - stem.len() - 1]);
    }
    assert(s.subrange(0, stem.len() as int) =~= stem);
    assert(s.subrange(stem.len() as int + 1, s.len() as int) =~= decimal(millis));
}

/// Two runs get different stems unless they agree in both the stem of the
/// supplied name and the millisecond. In particular, names with different
/// stems never collide, whatever the time.
pub proof fn law_stamped_stems_distinct(
    stem_a: Seq<char>,
    millis_a: nat,
    stem_b: Seq<char>,
    millis_b: nat,
)
    requires
        stem_a != stem_b || millis_a != millis_b,
    ensures
        stamped_stem(stem_a, millis_a) != stamped_stem(stem_b, millis_b),
{
    let a = stamped_stem(stem_a, millis_a);
    let b = stamped_stem(stem_b, millis_b);
    if a == b {
        lemma_stamp_position(stem_a, millis_a);
        lemma_stamp_position(stem_b, millis_b);
        // The last underscore sits at one index in both.
        if stem_a.len() < stem_b.len() {
            assert(is_digit(a[stem_b.len() as int]));
            assert(b[stem_b.len() as int] == '_');
        } else if stem_b.len() < stem_a.len() {
            assert(is_digit(b[stem_a.len() as int]));
            assert(a[stem_a.len() as int] == '_');
        }
        assert(stem_a.len() == stem_b.len());
        assert(stem_a == stem_b);
        assert(decimal(millis_a) == decimal(millis_b));
        lemma_decimal_injective(millis_a, millis_b);
    }
}

/// In one millisecond, supplied names with different stems get different
/// stems for their temporary files; so does each of them against the default.
pub proof fn law_distinct_names_distinct_stems(
    hint_a: Option<Seq<char>>,
    hint_b: Option<Seq<char>>,
    millis: nat,
)
    requires
        match (hint_a, hint_b) {
            (Some(a), Some(b)) => a != b,
            (Some(a), None) => a != default_stem(),
            (None, Some(b)) => b != default_stem(),
            (None, None) => false,
        },
    ensures
        input_stem(hint_a, millis) != input_stem(hint_b, millis),
{
    let a = match hint_a {
        Some(s) => s,
        None => default_stem(),
    };
    let b = match hint_b {
        Some(s) => s,
        None => default_stem(),
    };
    law_stamped_stems_distinct(a, millis, b, millis);
}

} // verus!
