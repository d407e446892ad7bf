//! Relative paths as text: their segments, which entries of a template are
//! left out, and whether a rendered path stays below the directory it is
//! joined to. Segments are separated by `/`.

use vstd::prelude::*;
use vstd::string::{StrSliceExecFns, StringExecFns};

verus! {

/// The segments of a path: the pieces between its slashes. A path without a
/// slash is one segment, and so is the empty path.
pub open spec fn segments(path: Seq<char>) -> Seq<Seq<char>>
    decreases path.len(),
{
    if path.len() == 0 {
        seq![Seq::empty()]
    } else if path.last() == '/' {
        segments(path.drop_last()).push(Seq::empty())
    } else {
        let before = segments(path.drop_last());
        before.drop_last().push(before.last().push(path.last()))
    }
}

/// Whether an entry of this name is left out of a template's files: the
/// metadata directory of version control and the descriptor file.
pub open spec fn is_reserved(name: Seq<char>) -> bool {
    name == ".git"@ || name == "template.toml"@
}

/// Whether a path is left out: one of its segments is reserved.
pub open spec fn is_left_out(path: Seq<char>) -> bool {
    exists|i: int| 0 <= i < segments(path).len() && is_reserved(#[trigger] segments(path)[i])
}

/// How deep below its start a walk over `parts` ends: `..` climbs one
/// level, the empty segment and `.` stay, every other segment descends one
/// level.
pub open spec fn depth_after(parts: Seq<Seq<char>>) -> int
    decreases parts.len(),
{
    if parts.len() == 0 {
        0
    } else if parts.last() == ".."@ {
        depth_after(parts.drop_last()) - 1
    } else if parts.last().len() == 0 || parts.last() == "."@ {
        depth_after(parts.drop_last())
    } else {
        depth_after(parts.drop_last()) + 1
    }
}

/// Whether a path, joined to a directory, names something strictly below
/// it: the path does not start at the root, no part of the walk along it
/// climbs above the directory, and the walk ends below it.
pub open spec fn stays_inside(path: Seq<char>) -> bool {
    &&& path.len() > 0
    &&& path[0] != '/'
    &&& forall|k: int| 0 <= k <= segments(path).len() ==> depth_after(#[trigger] segments(path).take(k)) >= 0
    &&& depth_after(segments(path)) >= 1
}

/// The last segment that is not empty; the empty text where all are.
pub open spec fn last_named(parts: Seq<Seq<char>>) -> Seq<char>
    decreases parts.len(),
{
    if parts.len() == 0 {
        Seq::empty()
    } else if parts.last().len() > 0 {
        parts.last()
    } else {
        last_named(parts.drop_last())
    }
}

/// The name of the directory that a path leads to: its last segment,
/// slashes at the end set aside.
pub open spec fn final_segment(path: Seq<char>) -> Seq<char> {
    last_named(segments(path))
}

/// `base` and `rest`, with a slash between them.
pub open spec fn joined(base: Seq<char>, rest: Seq<char>) -> Seq<char> {
    base + "/"@ + rest
}

/// The texts of a list of strings.
pub open spec fn texts(parts: Seq<String>) -> Seq<Seq<char>> {
    Seq::new(parts.len(), |i: int| parts[i]@)
}

/// A path has at least one segment.
pub proof fn lemma_segments_nonempty(path: Seq<char>)
    ensures
        segments(path).len() >= 1,
    decreases path.len(),
{
    if path.len() > 0 {
        lemma_segments_nonempty(path.drop_last());
    }
}

/// A text without a slash is one segment.
pub proof fn lemma_one_segment(name: Seq<char>)
    requires
        forall|i: int| 0 <= i < name.len() ==> name[i] != '/',
    ensures
        segments(name) == seq![name],
    decreases name.len(),
{
    if name.len() == 0 {
        assert(name =~= Seq::empty());
    } else {
        lemma_one_segment(name.drop_last());
        assert(name.drop_last().push(name.last()) =~= name);
        assert(seq![name.drop_last()].drop_last().push(name.drop_last().push(name.last()))
            =~= seq![name]);
    }
}

/// The segments of a joined path are those of the directory and then those
/// of what is joined to it.
pub proof fn lemma_segments_join(base: Seq<char>, rest: Seq<char>)
    ensures
        segments(joined(base, rest)) == segments(base) + segments(rest),
    decreases rest.len(),
{
    reveal_strlit("/");
    let path = joined(base, rest);
    if rest.len() == 0 {
        assert(path.drop_last() =~= base);
        assert(segments(base).push(Seq::empty()) =~= segments(base) + segments(rest));
    } else {
        let front = rest.drop_last();
        lemma_segments_join(base, front);
        lemma_segments_nonempty(front);
        assert(path.drop_last() =~= joined(base, front));
        assert(path.last() == rest.last());
        let before = segments(base) + segments(front);
        if rest.last() == '/' {
            assert(before.push(Seq::empty()) =~= segments(base) + segments(rest));
        } else {
            assert(before.last() == segments(front).last());
            assert(before.drop_last() =~= segments(base) + segments(front).drop_last());
            assert(before.drop_last().push(before.last().push(rest.last())) =~= segments(base)
                + segments(rest));
        }
    }
}

/// A joined path is left out exactly where the directory is or what is
/// joined to it: a reserved name hides all that lies below it.
pub proof fn lemma_left_out_join(base: Seq<char>, rest: Seq<char>)
    ensures
        is_left_out(joined(base, rest)) <==> is_left_out(base) || is_left_out(rest),
{
    lemma_segments_join(base, rest);
    let whole = segments(joined(base, rest));
    let first = segments(base);
    let second = segments(rest);
    if is_left_out(joined(base, rest)) {
        let i = choose|i: int| 0 <= i < whole.len() && is_reserved(#[trigger] whole[i]);
        if i < first.len() {
            assert(is_reserved(first[i]));
        } else {
            assert(is_reserved(second[i - first.len()]));
        }
    }
    if is_left_out(base) {
        let i = choose|i: int| 0 <= i < first.len() && is_reserved(#[trigger] first[i]);
        assert(is_reserved(whole[i]));
    }
    if is_left_out(rest) {
        let i = choose|i: int| 0 <= i < second.len() && is_reserved(#[trigger] second[i]);
        assert(whole[first.len() + i] == second[i]);
        assert(is_reserved(whole[first.len() + i]));
    }
}

/// The depth of a walk over two runs of segments is the sum of their
/// depths.
pub proof fn lemma_depth_adds(first: Seq<Seq<char>>, second: Seq<Seq<char>>)
    ensures
        depth_after(first + second) == depth_after(first) + depth_after(second),
    decreases second.len(),
{
    if second.len() == 0 {
        assert(first + second =~= first);
    } else {
        lemma_depth_adds(first, second.drop_last());
        assert((first + second).drop_last() =~= first + second.drop_last());
        assert((first + second).last() == second.last());
    }
}

/// A path that stays inside, joined to a directory, leads strictly below
/// that directory: the walk along the joined path, once it has reached the
/// directory, never climbs above it again, and it ends below it.
pub proof fn lemma_inside_leads_below(base: Seq<char>, below: Seq<char>, k: int)
    requires
        stays_inside(below),
        0 <= k <= segments(below).len(),
    ensures
        segments(joined(base, below)) == segments(base) + segments(below),
        depth_after(segments(joined(base, below)).take(segments(base).len() + k)) >= depth_after(
            segments(base),
        ),
        depth_after(segments(joined(base, below))) > depth_after(segments(base)),
{
    lemma_segments_join(base, below);
    let first = segments(base);
    let second = segments(below);
    lemma_depth_adds(first, second);
    lemma_depth_adds(first, second.take(k));
    assert((first + second).take(first.len() + k) =~= first + second.take(k));
}

/// The reserved names are left out.
pub proof fn lemma_reserved_left_out()
    ensures
        is_left_out("template.toml"@),
        is_left_out(".git"@),
{
    reveal_strlit("template.toml");
    reveal_strlit(".git");
    lemma_one_segment("template.toml"@);
    lemma_one_segment(".git"@);
    assert(is_reserved(segments("template.toml"@)[0]));
    assert(is_reserved(segments(".git"@)[0]));
}

/// The characters of a text.
pub fn chars_of(text: &str) -> (r: Vec<char>)
    ensures
        r@ == text@,
{
    let mut r: Vec<char> = Vec::new();
    for c in it: text.chars()
        invariant
            r@ == it.seq().take(it.index() as int),
            it.seq() == text@,
    {
        r.push(c);
    }
    r
}

/// The segments of a path.
pub fn split(path: &str) -> (r: Vec<String>)
    ensures
        texts(r@) == segments(path@),
        r@.len() >= 1,
{
    let chars: Vec<char> = chars_of(path);
    let n: usize = chars.len();
    let mut done: Vec<String> = Vec::new();
    let mut start: usize = 0;
    let mut i: usize = 0;
    proof {
        assert(path@.take(0) =~= Seq::empty());
        assert(texts(done@).push(path@.subrange(0, 0)) =~= seq![Seq::<char>::empty()]);
    }
    while i < n
        invariant
            start <= i <= n,
            n == path@.len(),
            chars@ == path@,
            segments(path@.take(i as int)) == texts(done@).push(
                path@.subrange(start as int, i as int),
            ),
        decreases n - i,
    {
        let ghost prefix = path@.take(i as int);
        let ghost next = path@.take(i + 1);
        let ghost before = texts(done@);
        proof {
            assert(next.drop_last() =~= prefix);
            assert(next.last() == path@[i as int]);
        }
        if chars[i] == '/' {
            done.push(path.substring_char(start, i).to_owned());
            proof {
                assert(texts(done@) =~= before.push(path@.subrange(start as int, i as int)));
                assert(path@.subrange(i + 1, i + 1) =~= Seq::<char>::empty());
            }
            start = i + 1;
        } else {
            proof {
                let whole = before.push(path@.subrange(start as int, i as int));
                assert(whole.drop_last() =~= before);
                assert(whole.last().push(path@[i as int]) =~= path@.subrange(
                    start as int,
                    i + 1,
                ));
            }
        }
        i += 1;
    }
    let ghost before = texts(done@);
    done.push(path.substring_char(start, n).to_owned());
    proof {
        assert(path@.take(n as int) =~= path@);
        assert(texts(done@) =~= before.push(path@.subrange(start as int, n as int)));
    }
    done
}

/// What a walk over a template takes in besides the names it keeps.
#[derive(Clone, Copy, Debug, PartialEq, Eq, Structural)]
pub struct WalkRules {
    /// Entries whose names start with a dot are walked like the others.
    pub include_hidden: bool,
    /// Ignore files inside the template are honoured.
    pub tree_ignores: bool,
    /// Ignore files of the directories above the template are honoured.
    pub parent_ignores: bool,
    /// The operator's own ignore file for all repositories is honoured.
    pub global_ignores: bool,
    /// The exclude file of the repository around the template is honoured.
    pub repository_excludes: bool,
}

/// How a template is walked: hidden entries are taken in, and of all ignore
/// rules only those that stand in files inside the template count.
pub fn walk_rules() -> (r: WalkRules)
    ensures
        r == (WalkRules {
            include_hidden: true,
            tree_ignores: true,
            parent_ignores: false,
            global_ignores: false,
            repository_excludes: false,
        }),
{
    WalkRules {
        include_hidden: true,
        tree_ignores: true,
        parent_ignores: false,
        global_ignores: false,
        repository_excludes: false,
    }
}

/// Whether a walk over a template keeps an entry of this name: it leaves
/// out `.git` and `template.toml`, wherever they stand.
pub fn keep_entry(name: &str) -> (r: bool)
    ensures
        r == !is_reserved(name@),
{
    let name: String = name.to_owned();
    !(name == String::from_str(".git") || name == String::from_str("template.toml"))
}

/// Whether a path below a template's root is left out of its files.
pub fn is_excluded(path: &str) -> (r: bool)
    ensures
        r == is_left_out(path@),
{
    let parts: Vec<String> = split(path);
    let n: usize = parts.len();
    let mut i: usize = 0;
    while i < n
        invariant
            i <= n,
            n == parts@.len(),
            texts(parts@) == segments(path@),
            forall|j: int| 0 <= j < i ==> !is_reserved(#[trigger] segments(path@)[j]),
        decreases n - i,
    {
        assert(texts(parts@)[i as int] == parts@[i as int]@);
        if !keep_entry(parts[i].as_str()) {
            return true;
        }
        i += 1;
    }
    false
}

/// Whether a rendered path stays strictly below the directory it is joined
/// to.
pub fn is_contained(path: &str) -> (r: bool)
    ensures
        r == stays_inside(path@),
{
    let parts: Vec<String> = split(path);
    let n: usize = parts.len();
    let ghost all = segments(path@);
    if path.is_empty() {
        return false;
    }
    if parts[0].as_str().is_empty() && n > 1 {
        proof {
            lemma_leading_slash(path@);
        }
        return false;
    }
    proof {
        assert(texts(parts@)[0] == parts@[0]@);
        if path@[0] == '/' {
            lemma_leading_slash(path@);
        }
    }
    let up: String = String::from_str("..");
    let here: String = String::from_str(".");
    let mut depth: usize = 0;
    let mut i: usize = 0;
    proof {
        assert(all.take(0) =~= Seq::empty());
    }
    while i < n
        invariant
            i <= n,
            n == parts@.len(),
            all == segments(path@),
            texts(parts@) == all,
            up@ == ".."@,
            here@ == "."@,
            depth == depth_after(all.take(i as int)),
            depth <= i,
            forall|k: int| 0 <= k <= i ==> depth_after(#[trigger] all.take(k)) >= 0,
        decreases n - i,
    {
        proof {
            assert(texts(parts@)[i as int] == parts@[i as int]@);
            assert(all.take(i + 1).drop_last() =~= all.take(i as int));
            assert(all.take(i + 1).last() == all[i as int]);
        }
        if parts[i] == up {
            if depth == 0 {
                assert(depth_after(all.take(i + 1)) < 0);
                return false;
            }
            depth -= 1;
        } else if parts[i].as_str().is_empty() || parts[i] == here {
        } else {
            depth += 1;
        }
        i += 1;
    }
    proof {
        assert(all.take(n as int) =~= all);
    }
    depth >= 1
}

/// A path that starts with a slash has an empty first segment and at least
/// one more, and no other path has both.
proof fn lemma_leading_slash(path: Seq<char>)
    requires
        path.len() > 0,
    ensures
        path[0] == '/' <==> (segments(path)[0].len() == 0 && segments(path).len() > 1),
        segments(path).len() >= 1,
        path[0] != '/' ==> segments(path)[0].len() > 0 && segments(path)[0][0] == path[0],
    decreases path.len(),
{
    let front = path.drop_last();
    lemma_segments_nonempty(front);
    if path.len() == 1 {
        assert(front =~= Seq::empty());
        assert(segments(front) =~= seq![Seq::<char>::empty()]);
    } else {
        lemma_leading_slash(front);
        assert(front[0] == path[0]);
    }
}

/// The name of the project that is made in the directory `target`: the
/// last segment of its path, slashes at the end set aside.
pub fn project_name_of(target: &str) -> (r: String)
    ensures
        r@ == final_segment(target@),
{
    let parts: Vec<String> = split(target);
    let mut i: usize = parts.len();
    let ghost all = segments(target@);
    proof {
        assert(all.take(i as int) =~= all);
    }
    while i > 0
        invariant
            i <= parts@.len(),
            all == segments(target@),
            texts(parts@) == all,
            last_named(all) == last_named(all.take(i as int)),
        decreases i,
    {
        proof {
            assert(texts(parts@)[i - 1] == parts@[i - 1]@);
            assert(all.take(i as int).drop_last() =~= all.take(i - 1));
            assert(all.take(i as int).last() == all[i - 1]);
        }
        if !parts[i - 1].as_str().is_empty() {
            return parts[i - 1].clone();
        }
        i -= 1;
    }
    proof {
        assert(all.take(0) =~= Seq::empty());
    }
    String::new()
}

/// Joins `rest` to the directory `base`.
pub fn join(base: &str, rest: &str) -> (r: String)
    ensures
        r@ == joined(base@, rest@),
{
    base.to_owned().concat("/").concat(rest)
}

} // verus!
