//! Names of roles and of targets, and the patterns that delegations use to
//! say which targets they speak for.

use crate::error::Role;
use crate::table::Content;
use crate::table::Group;
use crate::table::Label;
use vstd::prelude::*;
use vstd::utf8::encode_utf8;

verus! {

/// The octet that stands for any run of octets within a path segment.
pub const STAR: u8 = 0x2a;

/// The octet that stands for any one octet within a path segment.
pub const QUESTION: u8 = 0x3f;

/// The octet that separates path segments.
pub const SLASH: u8 = 0x2f;

/// Whether the pattern admits the path, both as UTF-8. A `*` stands for any
/// run of octets without a `/`, a `?` for one octet other than `/`, and any
/// other octet for itself.
pub open spec fn glob(pattern: Seq<u8>, path: Seq<u8>) -> bool
    decreases pattern.len(), path.len(),
{
    if pattern.len() == 0 {
        path.len() == 0
    } else if pattern[0] == STAR {
        glob(pattern.skip(1), path) || (path.len() > 0 && path[0] != SLASH && glob(
            pattern,
            path.skip(1),
        ))
    } else if pattern[0] == QUESTION {
        path.len() > 0 && path[0] != SLASH && glob(pattern.skip(1), path.skip(1))
    } else {
        path.len() > 0 && path[0] == pattern[0] && glob(pattern.skip(1), path.skip(1))
    }
}

/// The pattern has no wildcard in it.
pub open spec fn is_literal(pattern: Seq<u8>) -> bool {
    forall|i: int| 0 <= i < pattern.len() ==> pattern[i] != STAR && pattern[i] != QUESTION
}

/// A pattern without wildcards admits itself and nothing else.
pub proof fn literal_admits_itself_only(pattern: Seq<u8>, path: Seq<u8>)
    requires
        is_literal(pattern),
    ensures
        glob(pattern, path) <==> pattern == path,
    decreases pattern.len(),
{
    if pattern.len() == 0 {
        assert(path.len() == 0 ==> pattern =~= path);
    } else {
        assert(is_literal(pattern.skip(1)));
        if path.len() > 0 {
            literal_admits_itself_only(pattern.skip(1), path.skip(1));
            if pattern[0] == path[0] && pattern.skip(1) == path.skip(1) {
                assert(pattern =~= seq![pattern[0]] + pattern.skip(1));
                assert(path =~= seq![path[0]] + path.skip(1));
            }
        }
    }
}

/// A lone `*` admits exactly the paths without a `/`.
pub proof fn star_admits_one_segment(path: Seq<u8>)
    ensures
        glob(seq![STAR], path) <==> forall|i: int| 0 <= i < path.len() ==> path[i] != SLASH,
    decreases path.len(),
{
    let star = seq![STAR];
    assert(star.skip(1).len() == 0);
    assert(star[0] == STAR);
    assert(glob(star.skip(1), path) == (path.len() == 0));
    assert(glob(star, path) == (glob(star.skip(1), path) || (path.len() > 0 && path[0] != SLASH
        && glob(star, path.skip(1)))));
    if path.len() > 0 {
        star_admits_one_segment(path.skip(1));
        if path[0] != SLASH && (forall|i: int|
            0 <= i < path.skip(1).len() ==> path.skip(1)[i] != SLASH) {
            assert forall|i: int| 0 <= i < path.len() implies path[i] != SLASH by {
                if i > 0 {
                    assert(path.skip(1)[i - 1] == path[i]);
                }
            }
        }
        if forall|i: int| 0 <= i < path.len() ==> path[i] != SLASH {
            assert forall|i: int| 0 <= i < path.skip(1).len() implies path.skip(1)[i]
                != SLASH by {
                assert(path.skip(1)[i] == path[i + 1]);
            }
        }
    }
}

/// Whether the pattern admits the path, both as text.
pub open spec fn admits(pattern: Seq<char>, path: Seq<char>) -> bool {
    glob(encode_utf8(pattern), encode_utf8(path))
}

/// Whether some pattern of `level` admits `path`.
pub open spec fn level_admits(level: Set<Seq<char>>, path: Seq<char>) -> bool {
    exists|pattern: Seq<char>| #[trigger] level.contains(pattern) && admits(pattern, path)
}

/// Whether every level of `chain` has a pattern that admits `path`.
pub open spec fn chain_admits(chain: Seq<Set<Seq<char>>>, path: Seq<char>) -> bool {
    forall|i: int| 0 <= i < chain.len() ==> level_admits(#[trigger] chain[i], path)
}

/// Whether the pattern admits the path, worked out from the ends of both
/// backwards: one row of answers for each position in the pattern, and in
/// each row one answer for each position in the path.
fn glob_match(pattern: &[u8], path: &[u8]) -> (r: bool)
    ensures
        r == glob(pattern@, path@),
{
    let m = pattern.len();
    let n = path.len();
    // The row of the end of the pattern: only the end of the path is admitted.
    let mut row: Vec<bool> = Vec::new();
    let mut j: usize = 0;
    while j < n
        invariant
            j <= n,
            n == path@.len(),
            m == pattern@.len(),
            row@.len() == j,
            forall|k: int| 0 <= k < j ==> row@[k] == glob(pattern@.skip(m as int), path@.skip(k)),
        decreases n - j,
    {
        proof {
            assert(pattern@.skip(m as int).len() == 0);
            assert(path@.skip(j as int).len() > 0);
        }
        row.push(false);
        j += 1;
    }
    proof {
        assert(pattern@.skip(m as int).len() == 0);
        assert(path@.skip(n as int).len() == 0);
    }
    row.push(true);
    let mut i: usize = m;
    while i > 0
        invariant
            i <= m,
            n == path@.len(),
            m == pattern@.len(),
            row@.len() == n + 1,
            forall|k: int| 0 <= k <= n ==> row@[k] == glob(pattern@.skip(i as int), path@.skip(k)),
        decreases i,
    {
        i -= 1;
        let c: u8 = pattern[i];
        let ghost below = row@;
        let ghost pat = pattern@.skip(i as int);
        proof {
            assert(pat.len() > 0);
            assert(pat[0] == c);
            assert(pat.skip(1) =~= pattern@.skip(i + 1));
        }
        // The answer at the end of the path.
        let at_end = c == STAR && row[n];
        proof {
            assert(path@.skip(n as int).len() == 0);
        }
        let mut next: Vec<bool> = Vec::new();
        let mut fill: usize = 0;
        while fill < n
            invariant
                fill <= n,
                next@.len() == fill,
            decreases n - fill,
        {
            next.push(false);
            fill += 1;
        }
        next.push(at_end);
        let mut j: usize = n;
        while j > 0
            invariant
                j <= n,
                i < m,
                n == path@.len(),
                m == pattern@.len(),
                c == pattern@[i as int],
                pat == pattern@.skip(i as int),
                pat.len() > 0,
                pat[0] == c,
                pat.skip(1) == pattern@.skip(i + 1),
                below.len() == n + 1,
                next@.len() == n + 1,
                forall|k: int|
                    0 <= k <= n ==> below[k] == glob(pattern@.skip(i + 1), path@.skip(k)),
                forall|k: int| j <= k <= n ==> next@[k] == glob(pat, path@.skip(k)),
                row@ == below,
            decreases j,
        {
            j -= 1;
            let ghost rest = path@.skip(j as int);
            proof {
                assert(rest.len() > 0);
                assert(rest[0] == path@[j as int]);
                assert(rest.skip(1) =~= path@.skip(j + 1));
            }
            let b: u8 = path[j];
            let answer = if c == STAR {
                row[j] || (b != SLASH && next[j + 1])
            } else if c == QUESTION {
                b != SLASH && row[j + 1]
            } else {
                b == c && row[j + 1]
            };
            next.set(j, answer);
        }
        row = next;
    }
    proof {
        assert(pattern@.skip(0) =~= pattern@);
        assert(path@.skip(0) =~= path@);
    }
    row[0]
}

/// The name of a role's metadata, such as `root` or `delegations/a`.
#[derive(Debug, PartialEq, Eq, Hash)]
pub struct MetadataPath(String);

impl View for MetadataPath {
    type V = Seq<char>;

    closed spec fn view(&self) -> Seq<char> {
        self.0@
    }
}

impl Clone for MetadataPath {
    fn clone(&self) -> (r: Self)
        ensures
            r@ == self@,
    {
        MetadataPath(self.0.clone())
    }
}

impl Content for MetadataPath {
    fn duplicate(&self) -> (r: Self) {
        self.clone()
    }
}

impl Label for MetadataPath {
    fn same(&self, other: &Self) -> (r: bool) {
        self.0 == other.0
    }
}

/// The name under which a top-level role's metadata goes.
pub open spec fn role_name(role: Role) -> Seq<char> {
    match role {
        Role::Root => "root"@,
        Role::Snapshot => "snapshot"@,
        Role::Targets => "targets"@,
        Role::Timestamp => "timestamp"@,
    }
}

impl MetadataPath {
    /// The metadata path of the given text.
    pub fn new(path: &str) -> (r: MetadataPath)
        ensures
            r@ == path@,
    {
        MetadataPath(String::from_str(path))
    }

    /// The path of a top-level role.
    pub fn from_role(role: &Role) -> (r: MetadataPath)
        ensures
            r@ == role_name(*role),
    {
        match role {
            Role::Root => MetadataPath(String::from_str("root")),
            Role::Snapshot => MetadataPath(String::from_str("snapshot")),
            Role::Targets => MetadataPath(String::from_str("targets")),
            Role::Timestamp => MetadataPath(String::from_str("timestamp")),
        }
    }

    /// The text of the path.
    pub fn value(&self) -> (r: &str)
        ensures
            r@ == self@,
    {
        self.0.as_str()
    }
}

/// The name of a target, or a pattern for such names.
#[derive(Debug, PartialEq, Eq, Hash)]
pub struct VirtualTargetPath(String);

impl View for VirtualTargetPath {
    type V = Seq<char>;

    closed spec fn view(&self) -> Seq<char> {
        self.0@
    }
}

impl Clone for VirtualTargetPath {
    fn clone(&self) -> (r: Self)
        ensures
            r@ == self@,
    {
        VirtualTargetPath(self.0.clone())
    }
}

impl Content for VirtualTargetPath {
    fn duplicate(&self) -> (r: Self) {
        self.clone()
    }
}

impl Label for VirtualTargetPath {
    fn same(&self, other: &Self) -> (r: bool) {
        self.0 == other.0
    }
}

impl VirtualTargetPath {
    /// The target path, or pattern, of the given text.
    pub fn new(path: &str) -> (r: VirtualTargetPath)
        ensures
            r@ == path@,
    {
        VirtualTargetPath(String::from_str(path))
    }

    /// The text of the path.
    pub fn value(&self) -> (r: &str)
        ensures
            r@ == self@,
    {
        self.0.as_str()
    }

    /// Whether `pattern` admits this path.
    pub fn matches(&self, pattern: &VirtualTargetPath) -> (r: bool)
        ensures
            r == admits(pattern@, self@),
    {
        glob_match(pattern.0.as_str().as_bytes(), self.0.as_str().as_bytes())
    }

    /// Whether one of the patterns of `level` admits this path.
    pub fn matches_level(&self, level: &Group<VirtualTargetPath>) -> (r: bool)
        ensures
            r == level_admits(level@, self@),
    {
        let n = level.len();
        let mut i: usize = 0;
        while i < n
            invariant
                n == level.order().len(),
                i <= n,
                level@ =~= level.order().to_set(),
                forall|j: int| 0 <= j < i ==> !admits(#[trigger] level.order()[j], self@),
            decreases n - i,
        {
            if self.matches(level.key_at(i)) {
                assert(level@.contains(level.order()[i as int]));
                return true;
            }
            i += 1;
        }
        proof {
            assert forall|pattern: Seq<char>| #[trigger] level@.contains(pattern) implies !admits(
                pattern,
                self@,
            ) by {
                let j = level.order().index_of(pattern);
                assert(level.order()[j] == pattern);
            }
        }
        false
    }

    /// Whether this path is admitted at every level of the given chain of
    /// pattern sets.
    pub fn matches_chain(&self, parents: &Vec<&Group<VirtualTargetPath>>) -> (r: bool)
        ensures
            r == chain_admits(chain_view(parents@), self@),
    {
        let mut i: usize = 0;
        while i < parents.len()
            invariant
                i <= parents@.len(),
                forall|j: int| 0 <= j < i ==> level_admits(#[trigger] chain_view(parents@)[j], self@),
            decreases parents@.len() - i,
        {
            if !self.matches_level(parents[i]) {
                assert(chain_view(parents@)[i as int] == parents@[i as int]@);
                return false;
            }
            assert(chain_view(parents@)[i as int] == parents@[i as int]@);
            i += 1;
        }
        true
    }
}

/// The pattern sets of a chain of delegations, outermost first.
pub open spec fn chain_view(parents: Seq<&Group<VirtualTargetPath>>) -> Seq<Set<Seq<char>>> {
    Seq::new(parents.len(), |i: int| parents[i]@)
}

} // verus!
