//! The executable resolver: the places where the tool is looked for, in
//! order of preference, and the search path handed to it.

use crate::text::{concat2, concat3, texts, to_chars};
use vstd::prelude::*;

verus! {

// ---------------------------------------------------------------------------
// Candidates
// ---------------------------------------------------------------------------

/// The executables to try, bundled copies first and the bare command last.
pub open spec fn candidate_list() -> Seq<Seq<char>> {
    seq![
        "quarto/quarto-1.4.550/bin/quarto"@,
        "quarto/quarto-1.4.550/bin/quarto.exe"@,
        "quarto.cmd"@,
        "quarto"@,
    ]
}

/// The executables to try, in order.
pub fn candidates() -> (r: Vec<String>)
    ensures
        texts(r@) == candidate_list(),
{
    let mut v: Vec<String> = Vec::new();
    v.push("quarto/quarto-1.4.550/bin/quarto".to_owned());
    v.push("quarto/quarto-1.4.550/bin/quarto.exe".to_owned());
    v.push("quarto.cmd".to_owned());
    v.push("quarto".to_owned());
    assert(texts(v@) =~= candidate_list());
    v
}

// ---------------------------------------------------------------------------
// Search path
// ---------------------------------------------------------------------------

/// How the entries of a search path are told apart on a platform.
#[derive(Clone, Copy, Debug, PartialEq, Eq)]
pub enum PathStyle {
    /// Entries are separated by `:`, as on Unix.
    Colon,
    /// Entries are separated by `;`, as on Windows.
    Semicolon,
}

impl PathStyle {
    /// The character between the entries of a search path.
    pub open spec fn separator(self) -> char {
        match self {
            PathStyle::Colon => ':',
            PathStyle::Semicolon => ';',
        }
    }

    /// The separator as a character.
    pub fn separator_char(self) -> (r: char)
        ensures
            r == self.separator(),
    {
        match self {
            PathStyle::Colon => ':',
            PathStyle::Semicolon => ';',
        }
    }

    /// The separator as a string.
    pub fn separator_str(self) -> (r: &'static str)
        ensures
            r@ == seq![self.separator()],
    {
        proof {
            reveal_strlit(":");
            reveal_strlit(";");
        }
        let r = match self {
            PathStyle::Colon => ":",
            PathStyle::Semicolon => ";",
        };
        assert(r@ =~= seq![self.separator()]);
        r
    }
}

/// `path[a..b]` is one of the entries of `path`: it is bounded by separators
/// or by the ends of the path and holds no separator.
pub open spec fn entry_at(path: Seq<char>, sep: char, a: int, b: int) -> bool {
    &&& 0 <= a <= b <= path.len()
    &&& (a == 0 || path[a - 1] == sep)
    &&& (b == path.len() || path[b] == sep)
    &&& forall|i: int| a <= i < b ==> #[trigger] path[i] != sep
}

/// `dir` is one of the entries of `path`.
pub open spec fn is_entry(path: Seq<char>, sep: char, dir: Seq<char>) -> bool {
    exists|a: int, b: int| #[trigger] entry_at(path, sep, a, b) && path.subrange(a, b) == dir
}

/// `path`, with `dir` added behind a separator unless it is an entry already.
pub open spec fn with_entry(path: Seq<char>, sep: char, dir: Seq<char>) -> Seq<char> {
    if is_entry(path, sep, dir) {
        path
    } else {
        path + seq![sep] + dir
    }
}

/// `path`, with each of `dirs` added in turn unless it is an entry by then.
pub open spec fn with_entries(path: Seq<char>, sep: char, dirs: Seq<Seq<char>>) -> Seq<char>
    decreases dirs.len(),
{
    if dirs.len() == 0 {
        path
    } else {
        with_entries(with_entry(path, sep, dirs[0]), sep, dirs.drop_first())
    }
}

/// The directories in which the tool is commonly installed.
pub open spec fn well_known_dirs() -> Seq<Seq<char>> {
    seq![
        "/usr/local/bin"@,
        "/opt/homebrew/bin"@,
        "/opt/homebrew/sbin"@,
        "/Applications/quarto/bin"@,
    ]
}

/// The directory of the user's own binaries below `home`.
pub open spec fn user_bin_dir(home: Seq<char>) -> Seq<char> {
    home + "/.cargo/bin"@
}

/// The directories added for a run: the well-known ones, then the user's own.
pub open spec fn run_dirs(home: Seq<char>) -> Seq<Seq<char>> {
    well_known_dirs().push(user_bin_dir(home))
}

/// The text of an optional string, the empty text where there is none.
pub open spec fn text_or_empty(s: Option<String>) -> Seq<char> {
    match s {
        Some(t) => t@,
        None => Seq::<char>::empty(),
    }
}

/// The search path for the tool: the override as it stands where one is
/// given, and otherwise the current path with `dirs` added.
pub open spec fn resolved_search_path(
    override_path: Option<String>,
    current: Option<String>,
    style: PathStyle,
    dirs: Seq<Seq<char>>,
) -> Seq<char> {
    match override_path {
        Some(p) => p@,
        None => with_entries(text_or_empty(current), style.separator(), dirs),
    }
}

/// Whether `chars[a..b]` spells `other`.
fn range_equals(chars: &Vec<char>, a: usize, b: usize, other: &Vec<char>) -> (r: bool)
    requires
        a <= b <= chars@.len(),
    ensures
        r == (chars@.subrange(a as int, b as int) == other@),
{
    if b - a != other.len() {
        return false;
    }
    let ghost part = chars@.subrange(a as int, b as int);
    let mut i: usize = 0;
    while i < other.len()
        invariant
            a <= b <= chars@.len(),
            b - a == other@.len(),
            i <= other@.len(),
            part == chars@.subrange(a as int, b as int),
            forall|j: int| 0 <= j < i ==> part[j] == other@[j],
        decreases other@.len() - i,
    {
        assert(part[i as int] == chars@[a + i]);
        if chars[a + i] != other[i] {
            return false;
        }
        i += 1;
    }
    assert(part =~= other@);
    true
}

/// Whether `dir` is one of the entries of `path`.
pub fn has_entry(path: &str, style: PathStyle, dir: &str) -> (r: bool)
    ensures
        r == is_entry(path@, style.separator(), dir@),
{
    let p = to_chars(path);
    let d = to_chars(dir);
    let n = p.len();
    let sep = style.separator_char();
    let mut a: usize = 0;
    loop
        invariant
            a <= n,
            n == p@.len(),
            p@ == path@,
            d@ == dir@,
            sep == style.separator(),
            a == 0 || p@[a - 1] == sep,
            forall|x: int, y: int|
                #[trigger] entry_at(p@, sep, x, y) && x < a ==> p@.subrange(x, y) != d@,
        decreases n - a,
    {
        let mut b: usize = a;
        while b < n && p[b] != sep
            invariant
                a <= b <= n,
                n == p@.len(),
                forall|i: int| a <= i < b ==> #[trigger] p@[i] != sep,
            decreases n - b,
        {
            b += 1;
        }
        assert(entry_at(p@, sep, a as int, b as int));
        if range_equals(&p, a, b, &d) {
            return true;
        }
        proof {
            // Of the entries that start at or behind `a`, the one that ends at
            // `b` is the first.
            assert forall|x: int, y: int| #[trigger]
                entry_at(p@, sep, x, y) && x <= b implies p@.subrange(x, y) != d@ by {
                if x >= a {
                    if x > a {
                        assert(p@[x - 1] == sep);
                    }
                    assert(x == a);
                    if y < b {
                        assert(p@[y] == sep);
                    }
                    if y > b {
                        assert(p@[b as int] != sep);
                    }
                    assert(y == b);
                }
            }
        }
        if b == n {
            proof {
                assert forall|x: int, y: int| #[trigger]
                    entry_at(p@, sep, x, y) implies p@.subrange(x, y) != d@ by {}
            }
            return false;
        }
        a = b + 1;
    }
}

/// `path`, with `dir` added unless it is an entry already.
pub fn add_entry(path: &str, style: PathStyle, dir: &str) -> (r: String)
    ensures
        r@ == with_entry(path@, style.separator(), dir@),
{
    if has_entry(path, style, dir) {
        path.to_owned()
    } else {
        concat3(path, style.separator_str(), dir)
    }
}

/// `path`, with each of `dirs` added in turn unless it is an entry by then.
pub fn add_entries(path: &str, style: PathStyle, dirs: &Vec<String>) -> (r: String)
    ensures
        r@ == with_entries(path@, style.separator(), texts(dirs@)),
{
    let mut acc = path.to_owned();
    let mut i: usize = 0;
    assert(texts(dirs@).skip(0) =~= texts(dirs@));
    while i < dirs.len()
        invariant
            i <= dirs@.len(),
            with_entries(path@, style.separator(), texts(dirs@)) == with_entries(
                acc@,
                style.separator(),
                texts(dirs@).skip(i as int),
            ),
        decreases dirs@.len() - i,
    {
        proof {
            let rest = texts(dirs@).skip(i as int);
            assert(rest[0] == dirs@[i as int]@);
            assert(rest.drop_first() =~= texts(dirs@).skip(i + 1));
        }
        acc = add_entry(acc.as_str(), style, dirs[i].as_str());
        i += 1;
    }
    acc
}

/// The directories added to the search path when the installation is probed.
pub fn probe_dirs() -> (r: Vec<String>)
    ensures
        texts(r@) == well_known_dirs(),
{
    let mut v: Vec<String> = Vec::new();
    v.push("/usr/local/bin".to_owned());
    v.push("/opt/homebrew/bin".to_owned());
    v.push("/opt/homebrew/sbin".to_owned());
    v.push("/Applications/quarto/bin".to_owned());
    assert(texts(v@) =~= well_known_dirs());
    v
}

/// The directories added to the search path for a run.
pub fn render_dirs(home: &str) -> (r: Vec<String>)
    ensures
        texts(r@) == run_dirs(home@),
{
    let mut v = probe_dirs();
    v.push(concat2(home, "/.cargo/bin"));
    assert(texts(v@) =~= run_dirs(home@));
    v
}

/// The search path handed to the tool. An override is returned as it
/// stands. Without one, `dirs` are added to the current path, which counts
/// as empty where there is none; what the path holds already stays in front,
/// unchanged, and the platform's separator stands between the entries.
pub fn augmented_search_path(
    override_path: Option<String>,
    current: Option<String>,
    style: PathStyle,
    dirs: &Vec<String>,
) -> (r: String)
    ensures
        r@ == resolved_search_path(override_path, current, style, texts(dirs@)),
{
    match override_path {
        Some(p) => p,
        None => match current {
            Some(c) => add_entries(c.as_str(), style, dirs),
            None => {
                proof {
                    reveal_strlit("");
                    assert(""@ =~= Seq::<char>::empty());
                }
                add_entries("", style, dirs)
            },
        },
    }
}

// ---------------------------------------------------------------------------
// Laws
// ---------------------------------------------------------------------------

/// `dir` holds no separator.
pub open spec fn is_plain_dir(dir: Seq<char>, sep: char) -> bool {
    forall|i: int| 0 <= i < dir.len() ==> #[trigger] dir[i] != sep
}

/// Adding a directory keeps the path as it was in front.
pub proof fn law_with_entry_keeps_prefix(path: Seq<char>, sep: char, dir: Seq<char>)
    ensures
        path.is_prefix_of(with_entry(path, sep, dir)),
{
    assert(with_entry(path, sep, dir).subrange(0, path.len() as int) =~= path);
}

/// Adding a directory keeps every entry of the path.
pub proof fn law_with_entry_keeps_entries(
    path: Seq<char>,
    sep: char,
    dir: Seq<char>,
    other: Seq<char>,
)
    requires
        is_entry(path, sep, other),
    ensures
        is_entry(with_entry(path, sep, dir), sep, other),
{
    let grown = with_entry(path, sep, dir);
    if grown != path {
        let (a, b) = choose|a: int, b: int| #[trigger]
            entry_at(path, sep, a, b) && path.subrange(a, b) == other;
        assert(forall|i: int| 0 <= i < path.len() ==> grown[i] == path[i]);
        assert(grown[path.len() as int] == sep);
        assert(entry_at(grown, sep, a, b));
        assert(grown.subrange(a, b) =~= path.subrange(a, b));
    }
}

/// A directory without a separator in it is an entry of the path once it
/// has been added.
pub proof fn law_with_entry_adds(path: Seq<char>, sep: char, dir: Seq<char>)
    requires
        is_plain_dir(dir, sep),
    ensures
        is_entry(with_entry(path, sep, dir), sep, dir),
{
    let grown = with_entry(path, sep, dir);
    if !is_entry(path, sep, dir) {
        let a: int = path.len() as int + 1;
        let b: int = grown.len() as int;
        assert(grown[a - 1] == sep);
        assert forall|i: int| a <= i < b implies #[trigger] grown[i] != sep by {
            assert(grown[i] == dir[i - a]);
        }
        assert(entry_at(grown, sep, a, b));
        assert(grown.subrange(a, b) =~= dir);
    }
}

/// Augmenting keeps the path as it was in front: its entries and their order
/// are preserved.
pub proof fn law_augmenting_keeps_prefix(path: Seq<char>, sep: char, dirs: Seq<Seq<char>>)
    ensures
        path.is_prefix_of(with_entries(path, sep, dirs)),
    decreases dirs.len(),
{
    if dirs.len() > 0 {
        let next = with_entry(path, sep, dirs[0]);
        law_with_entry_keeps_prefix(path, sep, dirs[0]);
        law_augmenting_keeps_prefix(next, sep, dirs.drop_first());
        let out = with_entries(path, sep, dirs);
        assert(out.subrange(0, path.len() as int) =~= path) by {
            assert(next.subrange(0, path.len() as int) == path);
            assert(out.subrange(0, next.len() as int) == next);
            assert forall|i: int| 0 <= i < path.len() implies out[i] == path[i] by {
                assert(out.subrange(0, next.len() as int)[i] == out[i]);
                assert(next.subrange(0, path.len() as int)[i] == next[i]);
            }
        }
    } else {
        assert(path.subrange(0, path.len() as int) =~= path);
    }
}

/// Augmenting keeps every entry of the path.
pub proof fn law_augmenting_keeps_entries(
    path: Seq<char>,
    sep: char,
    dirs: Seq<Seq<char>>,
    other: Seq<char>,
)
    requires
        is_entry(path, sep, other),
    ensures
        is_entry(with_entries(path, sep, dirs), sep, other),
    decreases dirs.len(),
{
    if dirs.len() > 0 {
        law_with_entry_keeps_entries(path, sep, dirs[0], other);
        law_augmenting_keeps_entries(with_entry(path, sep, dirs[0]), sep, dirs.drop_first(), other);
    }
}

/// After augmenting, each of the added directories that holds no separator
/// is an entry of the path.
pub proof fn law_augmenting_adds(path: Seq<char>, sep: char, dirs: Seq<Seq<char>>, i: int)
    requires
        0 <= i < dirs.len(),
        is_plain_dir(dirs[i], sep),
    ensures
        is_entry(with_entries(path, sep, dirs), sep, dirs[i]),
    decreases dirs.len(),
{
    let next = with_entry(path, sep, dirs[0]);
    if i == 0 {
        law_with_entry_adds(path, sep, dirs[0]);
        law_augmenting_keeps_entries(next, sep, dirs.drop_first(), dirs[0]);
    } else {
        assert(dirs.drop_first()[i - 1] == dirs[i]);
        law_augmenting_adds(next, sep, dirs.drop_first(), i - 1);
    }
}

/// A path that holds all the directories already is returned unchanged.
pub proof fn law_augmenting_is_idle(path: Seq<char>, sep: char, dirs: Seq<Seq<char>>)
    requires
        forall|i: int| 0 <= i < dirs.len() ==> is_entry(path, sep, #[trigger] dirs[i]),
    ensures
        with_entries(path, sep, dirs) == path,
    decreases dirs.len(),
{
    if dirs.len() > 0 {
        assert(is_entry(path, sep, dirs[0]));
        assert forall|i: int| 0 <= i < dirs.drop_first().len() implies is_entry(
            path,
            sep,
            #[trigger] dirs.drop_first()[i],
        ) by {
            assert(dirs.drop_first()[i] == dirs[i + 1]);
        }
        law_augmenting_is_idle(path, sep, dirs.drop_first());
    }
}

/// Augmenting twice with directories that hold no separator gives what
/// augmenting once gives.
pub proof fn law_augmenting_idempotent(path: Seq<char>, sep: char, dirs: Seq<Seq<char>>)
    requires
        forall|i: int| 0 <= i < dirs.len() ==> is_plain_dir(#[trigger] dirs[i], sep),
    ensures
        with_entries(with_entries(path, sep, dirs), sep, dirs) == with_entries(path, sep, dirs),
{
    let once = with_entries(path, sep, dirs);
    assert forall|i: int| 0 <= i < dirs.len() implies is_entry(once, sep, #[trigger] dirs[i]) by {
        law_augmenting_adds(path, sep, dirs, i);
    }
    law_augmenting_is_idle(once, sep, dirs);
}

/// None of the well-known directories holds a separator, whatever the
/// platform: augmenting with them is idempotent.
pub proof fn law_well_known_dirs_are_plain(style: PathStyle, i: int)
    requires
        0 <= i < well_known_dirs().len(),
    ensures
        is_plain_dir(well_known_dirs()[i], style.separator()),
{
    reveal_strlit("/usr/local/bin");
    reveal_strlit("/opt/homebrew/bin");
    reveal_strlit("/opt/homebrew/sbin");
    reveal_strlit("/Applications/quarto/bin");
}

/// An override stands for the whole search path, whatever the current path
/// and the directories are.
pub proof fn law_override_is_verbatim(
    override_path: String,
    current: Option<String>,
    style: PathStyle,
    dirs: Seq<Seq<char>>,
)
    ensures
        resolved_search_path(Some(override_path), current, style, dirs) == override_path@,
{
}

} // verus!
