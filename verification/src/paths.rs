//! Paths as text: `/` separates components, a leading `/` makes a path absolute, and empty and
//! inner `.` components do not count. A path of Windows, where `\` separates too, is read with
//! [`with_slashes`] first.
use vstd::prelude::*;

use crate::text;

verus! {

/// The pieces of a text between occurrences of `a` or `b`.
pub open spec fn split_of(s: Seq<char>, a: char, b: char) -> Seq<Seq<char>>
    decreases s.len(),
{
    if s.len() == 0 {
        seq![Seq::empty()]
    } else {
        let before = split_of(s.drop_last(), a, b);
        if s.last() == a || s.last() == b {
            before.push(Seq::empty())
        } else {
            before.drop_last().push(before.last().push(s.last()))
        }
    }
}

proof fn lemma_split_nonempty(s: Seq<char>, a: char, b: char)
    ensures
        split_of(s, a, b).len() > 0,
    decreases s.len(),
{
    if s.len() > 0 {
        lemma_split_nonempty(s.drop_last(), a, b);
    }
}

/// Splits a text at every occurrence of `a` or `b`.
pub fn split_at(s: &str, a: char, b: char) -> (r: Vec<String>)
    ensures
        text::list_view(r@) == split_of(s@, a, b),
        r@.len() > 0,
{
    let v = text::chars_of(s);
    let mut done: Vec<String> = Vec::new();
    let mut piece = String::new();
    let mut i: usize = 0;
    while i < v.len()
        invariant
            i <= v@.len(),
            v@ == s@,
            split_of(s@.subrange(0, i as int), a, b) == text::list_view(done@).push(piece@),
        decreases v@.len() - i,
    {
        let c = v[i];
        let ghost t = s@.subrange(0, i + 1);
        let ghost before = split_of(s@.subrange(0, i as int), a, b);
        assert(t.drop_last() == s@.subrange(0, i as int));
        assert(t.last() == c);
        if c == a || c == b {
            let ghost old_done = done@;
            done.push(piece);
            assert(text::list_view(done@) == text::list_view(old_done).push(piece@));
            piece = String::new();
        } else {
            assert(before.drop_last() == text::list_view(done@));
            assert(before.last() == piece@);
            piece.push(c);
        }
        i = i + 1;
    }
    assert(s@.subrange(0, i as int) == s@);
    let ghost old_done = done@;
    done.push(piece);
    assert(text::list_view(done@) == text::list_view(old_done).push(piece@));
    done
}

/// A component of a path.
#[derive(Debug, PartialEq, Eq)]
pub enum PathPart {
    /// The root of an absolute path.
    Root,
    /// A leading `.`.
    Current,
    /// A `..`.
    Parent,
    /// A name.
    Normal(String),
}

/// What a component of a path is.
pub enum PartView {
    Root,
    Current,
    Parent,
    Normal(Seq<char>),
}

pub open spec fn part_view(p: PathPart) -> PartView {
    match p {
        PathPart::Root => PartView::Root,
        PathPart::Current => PartView::Current,
        PathPart::Parent => PartView::Parent,
        PathPart::Normal(name) => PartView::Normal(name@),
    }
}

pub open spec fn parts_view(v: Seq<PathPart>) -> Seq<PartView> {
    Seq::new(v.len(), |i: int| part_view(v[i]))
}

/// The components that the first `n` pieces of a path contribute.
pub open spec fn parts_from(pieces: Seq<Seq<char>>, n: int) -> Seq<PartView>
    decreases n,
{
    if n <= 0 {
        Seq::empty()
    } else {
        let before = parts_from(pieces, n - 1);
        let piece = pieces[n - 1];
        if piece.len() == 0 {
            before
        } else if piece == "."@ {
            if n == 1 {
                before.push(PartView::Current)
            } else {
                before
            }
        } else if piece == ".."@ {
            before.push(PartView::Parent)
        } else {
            before.push(PartView::Normal(piece))
        }
    }
}

/// Whether a path is absolute.
pub open spec fn absolute(s: Seq<char>) -> bool {
    s.len() > 0 && s[0] == '/'
}

/// The components of a path.
pub open spec fn parts_of(s: Seq<char>) -> Seq<PartView> {
    let pieces = split_of(s, '/', '/');
    let body = parts_from(pieces, pieces.len() as int);
    if absolute(s) {
        seq![PartView::Root] + body
    } else {
        body
    }
}

/// Tests whether a path is absolute.
pub fn is_absolute(path: &str) -> (r: bool)
    ensures
        r == absolute(path@),
{
    path.unicode_len() > 0 && path.get_char(0) == '/'
}

/// Splits a path into its components.
pub fn components(path: &str) -> (r: Vec<PathPart>)
    ensures
        parts_view(r@) == parts_of(path@),
{
    let pieces = split_at(path, '/', '/');
    let ghost views = split_of(path@, '/', '/');
    let mut r: Vec<PathPart> = Vec::new();
    let ghost head = if absolute(path@) {
        seq![PartView::Root]
    } else {
        Seq::empty()
    };
    if is_absolute(path) {
        r.push(PathPart::Root);
    }
    assert(parts_view(r@) == head + parts_from(views, 0));
    let mut i: usize = 0;
    while i < pieces.len()
        invariant
            i <= pieces@.len(),
            text::list_view(pieces@) == views,
            parts_view(r@) == head + parts_from(views, i as int),
        decreases pieces@.len() - i,
    {
        let piece = pieces[i].as_str();
        assert(views[i as int] == piece@);
        let ghost before = r@;
        if piece.is_empty() {
        } else if text::same_text(piece, ".") {
            if i == 0 {
                r.push(PathPart::Current);
                assert(parts_view(r@) == parts_view(before).push(PartView::Current));
            }
        } else if text::same_text(piece, "..") {
            r.push(PathPart::Parent);
            assert(parts_view(r@) == parts_view(before).push(PartView::Parent));
        } else {
            r.push(PathPart::Normal(piece.to_owned()));
            assert(parts_view(r@) == parts_view(before).push(PartView::Normal(piece@)));
        }
        i = i + 1;
        assert(parts_view(r@) == head + parts_from(views, i as int));
    }
    assert(parts_view(r@) == parts_of(path@));
    r
}

/// Whether a path consists of names only: it is not empty, not absolute, and neither leads upwards
/// nor begins with `.`.
pub open spec fn plain_relative(s: Seq<char>) -> bool {
    s.len() > 0 && forall|i: int|
        0 <= i < parts_of(s).len() ==> #[trigger] parts_of(s)[i] is Normal
}

/// Tests whether a path consists of names only.
pub fn is_plain_relative(path: &str) -> (r: bool)
    ensures
        r == plain_relative(path@),
{
    if path.is_empty() {
        return false;
    }
    let parts = components(path);
    let mut i: usize = 0;
    while i < parts.len()
        invariant
            i <= parts@.len(),
            parts_view(parts@) == parts_of(path@),
            forall|j: int| 0 <= j < i ==> #[trigger] parts_of(path@)[j] is Normal,
        decreases parts@.len() - i,
    {
        assert(parts_of(path@)[i as int] == part_view(parts@[i as int]));
        match &parts[i] {
            PathPart::Normal(_) => {},
            _ => {
                assert(!(parts_of(path@)[i as int] is Normal));
                return false;
            },
        }
        i = i + 1;
    }
    true
}

/// A path of the platform with `/` as its only separator: on Windows `\` separates as well.
pub open spec fn slashed(s: Seq<char>, windows: bool) -> Seq<char> {
    if windows {
        text::with_char(s, '\\', '/')
    } else {
        s
    }
}

/// Writes a path of the platform with `/` as its only separator.
pub fn with_slashes(path: &str, windows: bool) -> (r: String)
    ensures
        r@ == slashed(path@, windows),
{
    if windows {
        text::replace_char(path, '\\', '/')
    } else {
        path.to_owned()
    }
}

/// Whether a path of Windows begins with a drive.
pub open spec fn drive_prefixed(s: Seq<char>) -> bool {
    s.len() >= 2 && s[1] == ':' && ('a' <= s[0] <= 'z' || 'A' <= s[0] <= 'Z')
}

/// Whether a path of the platform consists of names only. On Windows no drive, share or device may
/// stand before them.
pub open spec fn names_only(s: Seq<char>, windows: bool) -> bool {
    plain_relative(slashed(s, windows)) && !(windows && drive_prefixed(s))
}

/// Tests whether a path of Windows begins with a drive.
pub fn has_drive(path: &str) -> (r: bool)
    ensures
        r == drive_prefixed(path@),
{
    if path.unicode_len() < 2 || path.get_char(1) != ':' {
        return false;
    }
    let c = path.get_char(0);
    'a' <= c && c <= 'z' || 'A' <= c && c <= 'Z'
}

/// Tests whether a path of the platform consists of names only.
pub fn is_names_only(path: &str, windows: bool) -> (r: bool)
    ensures
        r == names_only(path@, windows),
{
    if windows && has_drive(path) {
        return false;
    }
    is_plain_relative(with_slashes(path, windows).as_str())
}

/// A path without `\` reads alike on every platform.
pub proof fn slashed_paths_are_portable(s: Seq<char>, windows: bool)
    requires
        !s.contains('\\'),
    ensures
        slashed(s, windows) == s,
{
    assert forall|i: int| 0 <= i < s.len() implies slashed(s, windows)[i] == s[i] by {
        assert(s.contains(s[i]));
    }
    assert(slashed(s, windows) =~= s);
}

/// A path that is read as one of Windows holds no `\` any more.
pub proof fn slashed_paths_hold_no_backslash(s: Seq<char>)
    ensures
        !slashed(s, true).contains('\\'),
{
    if slashed(s, true).contains('\\') {
        let k = choose|k: int| 0 <= k < s.len() && slashed(s, true)[k] == '\\';
        assert(slashed(s, true)[k] == if s[k] == '\\' {
            '/'
        } else {
            s[k]
        });
    }
}

/// A path of names only does not begin with a separator: neither with a root nor, on Windows, with a
/// share or a device.
pub proof fn names_begin_with_no_separator(s: Seq<char>, windows: bool)
    requires
        names_only(s, windows),
    ensures
        s[0] != '/',
        windows ==> s[0] != '\\',
{
    let t = slashed(s, windows);
    if t[0] == '/' {
        assert(parts_of(t)[0] is Root);
    }
    assert(t[0] != '/');
}

/// The path that `child` denotes within `base`.
pub open spec fn joined(base: Seq<char>, child: Seq<char>) -> Seq<char> {
    if absolute(child) || base.len() == 0 {
        child
    } else if base.last() == '/' {
        base + child
    } else {
        base + seq!['/'] + child
    }
}

/// Joins a path to a base. An absolute path replaces the base.
pub fn join(base: &str, child: &str) -> (r: String)
    ensures
        r@ == joined(base@, child@),
{
    if is_absolute(child) || base.is_empty() {
        return child.to_owned();
    }
    let mut r = base.to_owned();
    if base.get_char(base.unicode_len() - 1) != '/' {
        r.push('/');
    }
    r.append(child);
    r
}

/// Whether the components of `path` begin with those of `base`.
pub open spec fn within(path: Seq<char>, base: Seq<char>) -> bool {
    parts_of(base).len() <= parts_of(path).len() && parts_of(path).subrange(
        0,
        parts_of(base).len() as int,
    ) == parts_of(base)
}

fn same_part(a: &PathPart, b: &PathPart) -> (r: bool)
    ensures
        r == (part_view(*a) == part_view(*b)),
{
    match (a, b) {
        (PathPart::Root, PathPart::Root) => true,
        (PathPart::Current, PathPart::Current) => true,
        (PathPart::Parent, PathPart::Parent) => true,
        (PathPart::Normal(x), PathPart::Normal(y)) => text::same_text(x.as_str(), y.as_str()),
        _ => false,
    }
}

/// Tests whether the components of a path begin with those of a base.
pub fn starts_with(path: &str, base: &str) -> (r: bool)
    ensures
        r == within(path@, base@),
{
    let p = components(path);
    let b = components(base);
    if b.len() > p.len() {
        return false;
    }
    let mut i: usize = 0;
    while i < b.len()
        invariant
            i <= b@.len() <= p@.len(),
            parts_view(p@) == parts_of(path@),
            parts_view(b@) == parts_of(base@),
            forall|j: int| 0 <= j < i ==> parts_of(path@)[j] == #[trigger] parts_of(base@)[j],
        decreases b@.len() - i,
    {
        assert(parts_of(path@)[i as int] == part_view(p@[i as int]));
        assert(parts_of(base@)[i as int] == part_view(b@[i as int]));
        if !same_part(&p[i], &b[i]) {
            assert(parts_of(path@).subrange(0, parts_of(base@).len() as int)[i as int] != parts_of(
                base@,
            )[i as int]);
            return false;
        }
        i = i + 1;
    }
    assert(parts_of(path@).subrange(0, parts_of(base@).len() as int) == parts_of(base@));
    true
}

/// The name that a path ends in.
pub open spec fn file_name_of(s: Seq<char>) -> Option<Seq<char>> {
    let parts = parts_of(s);
    if parts.len() > 0 {
        match parts.last() {
            PartView::Normal(name) => Some(name),
            _ => None,
        }
    } else {
        None
    }
}

/// The name that a path ends in.
pub fn file_name(path: &str) -> (r: Option<String>)
    ensures
        text::opt_view(r) == file_name_of(path@),
{
    let parts = components(path);
    if parts.len() == 0 {
        return None;
    }
    assert(parts_of(path@).last() == part_view(parts@[parts@.len() - 1]));
    match &parts[parts.len() - 1] {
        PathPart::Normal(name) => Some(name.clone()),
        _ => None,
    }
}

/// Where the last `.` of a name stands.
pub open spec fn last_dot(name: Seq<char>) -> Option<int>
    decreases name.len(),
{
    if name.len() == 0 {
        None
    } else if name.last() == '.' {
        Some(name.len() - 1)
    } else {
        last_dot(name.drop_last())
    }
}

/// What follows the last `.` of the name that a path ends in, unless the name begins with it.
pub open spec fn extension_of(s: Seq<char>) -> Option<Seq<char>> {
    match file_name_of(s) {
        Some(name) => match last_dot(name) {
            Some(at) => if at > 0 {
                Some(name.subrange(at + 1, name.len() as int))
            } else {
                None
            },
            None => None,
        },
        None => None,
    }
}

/// The extension of the name that a path ends in.
pub fn extension(path: &str) -> (r: Option<String>)
    ensures
        text::opt_view(r) == extension_of(path@),
{
    let name = match file_name(path) {
        Some(name) => name,
        None => return None,
    };
    let v = text::chars_of(name.as_str());
    assert(v@.subrange(0, v@.len() as int) == v@);
    let mut i: usize = v.len();
    while i > 0
        invariant
            i <= v@.len(),
            v@ == name@,
            file_name_of(path@) == Some(name@),
            last_dot(v@.subrange(0, i as int)) == last_dot(v@),
        decreases i,
    {
        assert(v@.subrange(0, i as int).last() == v@[i - 1]);
        assert(v@.subrange(0, i as int).drop_last() == v@.subrange(0, i - 1));
        if v[i - 1] == '.' {
            if i == 1 {
                return None;
            }
            return Some(text::slice_text(&v, i, v.len()));
        }
        i = i - 1;
    }
    None
}

/// A path in normal form with the given components.
pub open spec fn rendered_parts(parts: Seq<PartView>) -> Seq<char>
    decreases parts.len(),
{
    if parts.len() == 0 {
        Seq::empty()
    } else {
        joined(
            rendered_parts(parts.drop_last()),
            match parts.last() {
                PartView::Root => "/"@,
                PartView::Current => "."@,
                PartView::Parent => ".."@,
                PartView::Normal(name) => name,
            },
        )
    }
}

/// The path without its last component, in normal form. An empty path and the root have none.
pub open spec fn parent_of(s: Seq<char>) -> Option<Seq<char>> {
    let parts = parts_of(s);
    if parts.len() == 0 || parts.last() is Root {
        None
    } else {
        Some(rendered_parts(parts.drop_last()))
    }
}

fn render(parts: &Vec<PathPart>, n: usize) -> (r: String)
    requires
        n <= parts@.len(),
    ensures
        r@ == rendered_parts(parts_view(parts@).subrange(0, n as int)),
{
    let mut r = String::new();
    let mut i: usize = 0;
    while i < n
        invariant
            i <= n <= parts@.len(),
            r@ == rendered_parts(parts_view(parts@).subrange(0, i as int)),
        decreases n - i,
    {
        proof {
            let t = parts_view(parts@).subrange(0, i + 1);
            assert(t.drop_last() == parts_view(parts@).subrange(0, i as int));
            assert(t.last() == part_view(parts@[i as int]));
        }
        let name = match &parts[i] {
            PathPart::Root => "/",
            PathPart::Current => ".",
            PathPart::Parent => "..",
            PathPart::Normal(name) => name.as_str(),
        };
        r = join(r.as_str(), name);
        i = i + 1;
    }
    r
}

/// The path without its last component, in normal form.
pub fn parent(path: &str) -> (r: Option<String>)
    ensures
        text::opt_view(r) == parent_of(path@),
{
    let parts = components(path);
    if parts.len() == 0 {
        return None;
    }
    assert(parts_of(path@).last() == part_view(parts@[parts@.len() - 1]));
    match &parts[parts.len() - 1] {
        PathPart::Root => None,
        _ => {
            assert(parts_view(parts@).subrange(0, parts@.len() - 1) == parts_of(path@).drop_last());
            Some(render(&parts, parts.len() - 1))
        },
    }
}

/// Whether a text is a name: not empty, neither `.` nor `..`, and without a `/`.
pub open spec fn is_name(s: Seq<char>) -> bool {
    s.len() > 0 && s != "."@ && s != ".."@ && !s.contains('/')
}

/// No piece of a text holds a character that separates pieces.
pub proof fn pieces_hold_no_separator(s: Seq<char>, a: char, b: char)
    ensures
        split_of(s, a, b).len() > 0,
        forall|i: int|
            0 <= i < split_of(s, a, b).len() ==> !(#[trigger] split_of(s, a, b)[i]).contains(a)
                && !split_of(s, a, b)[i].contains(b),
    decreases s.len(),
{
    if s.len() > 0 {
        pieces_hold_no_separator(s.drop_last(), a, b);
        let before = split_of(s.drop_last(), a, b);
        let last = before.last();
        assert(last == before[before.len() - 1]);
        if s.last() != a && s.last() != b {
            let grown = last.push(s.last());
            if grown.contains(a) {
                let k = choose|k: int| 0 <= k < grown.len() && grown[k] == a;
                assert(last[k] == a);
            }
            if grown.contains(b) {
                let k = choose|k: int| 0 <= k < grown.len() && grown[k] == b;
                assert(last[k] == b);
            }
        }
    }
}

proof fn lemma_split_name(name: Seq<char>)
    requires
        !name.contains('/'),
    ensures
        split_of(name, '/', '/') == seq![name],
    decreases name.len(),
{
    if name.len() > 0 {
        assert(name[name.len() - 1] == name.last());
        assert forall|k: int| 0 <= k < name.len() implies name[k] != '/' by {
            assert(name.contains(name[k]));
        }
        assert(!name.drop_last().contains('/'));
        lemma_split_name(name.drop_last());
        let before = split_of(name.drop_last(), '/', '/');
        assert(before.last() == name.drop_last());
        assert(name.drop_last().push(name.last()) == name);
        assert(before.drop_last() == Seq::<Seq<char>>::empty());
        assert(split_of(name, '/', '/') == seq![name]);
    } else {
        assert(name == Seq::<char>::empty());
    }
}

proof fn lemma_split_append(base: Seq<char>, name: Seq<char>)
    requires
        !name.contains('/'),
    ensures
        split_of(base + seq!['/'] + name, '/', '/') == split_of(base, '/', '/').push(name),
    decreases name.len(),
{
    let whole = base + seq!['/'] + name;
    if name.len() == 0 {
        assert(whole.drop_last() == base);
        assert(whole.last() == '/');
        assert(name == Seq::<char>::empty());
    } else {
        assert forall|k: int| 0 <= k < name.len() implies name[k] != '/' by {
            assert(name.contains(name[k]));
        }
        assert(!name.drop_last().contains('/'));
        lemma_split_append(base, name.drop_last());
        assert(whole.drop_last() == base + seq!['/'] + name.drop_last());
        assert(whole.last() == name.last());
        let before = split_of(whole.drop_last(), '/', '/');
        assert(before.drop_last() == split_of(base, '/', '/'));
        assert(name.drop_last().push(name.last()) == name);
    }
}

proof fn lemma_parts_prefix(a: Seq<Seq<char>>, b: Seq<Seq<char>>, n: int)
    requires
        0 <= n <= a.len(),
        n <= b.len(),
        forall|i: int| 0 <= i < n ==> a[i] == b[i],
    ensures
        parts_from(a, n) == parts_from(b, n),
    decreases n,
{
    if n > 0 {
        lemma_parts_prefix(a, b, n - 1);
    }
}

/// A name joined to a path of names is a path of names, one longer.
pub proof fn joining_a_name_extends(base: Seq<char>, name: Seq<char>)
    requires
        is_name(name),
        base.len() == 0 || (plain_relative(base) && base.last() != '/'),
    ensures
        plain_relative(joined(base, name)),
        joined(base, name).last() != '/',
        parts_of(joined(base, name)) == parts_of(base).push(PartView::Normal(name)),
{
    assert forall|k: int| 0 <= k < name.len() implies name[k] != '/' by {
        assert(name.contains(name[k]));
    }
    assert(name.last() == name[name.len() - 1]);
    let whole = joined(base, name);
    if base.len() == 0 {
        lemma_split_name(name);
        assert(base == Seq::<char>::empty());
        assert(split_of(base, '/', '/') == seq![Seq::<char>::empty()]);
        reveal_with_fuel(parts_from, 2);
        assert(parts_of(base) == Seq::<PartView>::empty());
        assert(parts_of(whole) == parts_of(base).push(PartView::Normal(name)));
    } else {
        lemma_split_append(base, name);
        let pieces = split_of(base, '/', '/');
        let longer = pieces.push(name);
        lemma_split_nonempty(base, '/', '/');
        lemma_parts_prefix(longer, pieces, pieces.len() as int);
        assert(longer[longer.len() - 1] == name);
        assert(!absolute(base)) by {
            if absolute(base) {
                assert(parts_of(base)[0] is Root);
            }
        }
        assert(whole[0] == base[0]);
        assert(parts_of(whole) == parts_of(base).push(PartView::Normal(name)));
    }
    assert forall|i: int| 0 <= i < parts_of(whole).len() implies #[trigger] parts_of(
        whole,
    )[i] is Normal by {
        if i < parts_of(base).len() {
            assert(parts_of(whole)[i] == parts_of(base)[i]);
            if base.len() == 0 {
                assert(false);
            }
        }
    }
}

/// A name joined to a path is one more component of it.
pub proof fn joining_a_name_adds_a_part(base: Seq<char>, name: Seq<char>)
    requires
        is_name(name),
        base.len() > 0,
        base.last() != '/',
    ensures
        parts_of(joined(base, name)) == parts_of(base).push(PartView::Normal(name)),
{
    assert forall|k: int| 0 <= k < name.len() implies name[k] != '/' by {
        assert(name.contains(name[k]));
    }
    let whole = joined(base, name);
    lemma_split_append(base, name);
    let pieces = split_of(base, '/', '/');
    let longer = pieces.push(name);
    lemma_split_nonempty(base, '/', '/');
    lemma_parts_prefix(longer, pieces, pieces.len() as int);
    assert(longer[longer.len() - 1] == name);
    assert(whole[0] == base[0]);
    assert(parts_of(whole) =~= parts_of(base).push(PartView::Normal(name)));
}

proof fn lemma_pieces_within(s: Seq<char>, a: char, b: char, c: char)
    requires
        !s.contains(c),
    ensures
        split_of(s, a, b).len() > 0,
        forall|i: int|
            0 <= i < split_of(s, a, b).len() ==> !(#[trigger] split_of(s, a, b)[i]).contains(c),
    decreases s.len(),
{
    if s.len() > 0 {
        let shorter = s.drop_last();
        assert(!shorter.contains(c)) by {
            if shorter.contains(c) {
                let k = choose|k: int| 0 <= k < shorter.len() && shorter[k] == c;
                assert(s[k] == c);
            }
        }
        lemma_pieces_within(shorter, a, b, c);
        let before = split_of(shorter, a, b);
        let last = before.last();
        assert(last == before[before.len() - 1]);
        assert(s.contains(s.last()));
        let grown = last.push(s.last());
        if grown.contains(c) {
            let k = choose|k: int| 0 <= k < grown.len() && grown[k] == c;
            assert(last[k] == c);
        }
    }
}

proof fn lemma_parts_names(pieces: Seq<Seq<char>>, n: int, c: char)
    requires
        0 <= n <= pieces.len(),
        forall|i: int| 0 <= i < pieces.len() ==> !(#[trigger] pieces[i]).contains(c),
    ensures
        forall|i: int|
            0 <= i < parts_from(pieces, n).len() ==> (#[trigger] parts_from(
                pieces,
                n,
            )[i] matches PartView::Normal(name) ==> !name.contains(c)),
    decreases n,
{
    if n > 0 {
        lemma_parts_names(pieces, n - 1, c);
        let before = parts_from(pieces, n - 1);
        let after = parts_from(pieces, n);
        assert forall|i: int| 0 <= i < after.len() implies (#[trigger] after[i] matches PartView::Normal(
            name,
        ) ==> !name.contains(c)) by {
            if i < before.len() {
                assert(after[i] == before[i]);
            }
        }
    }
}

proof fn lemma_file_name(s: Seq<char>, c: char)
    requires
        forall|i: int|
            0 <= i < split_of(s, '/', '/').len() ==> !(#[trigger] split_of(s, '/', '/')[i]).contains(
                c,
            ),
    ensures
        file_name_of(s) matches Some(name) ==> !name.contains(c),
{
    let pieces = split_of(s, '/', '/');
    lemma_parts_names(pieces, pieces.len() as int, c);
    let parts = parts_of(s);
    let body = parts_from(pieces, pieces.len() as int);
    if parts.len() > 0 && parts.last() is Normal {
        assert(parts.last() == body[body.len() - 1]);
    }
}

/// The name that a path ends in holds no separator.
pub proof fn names_hold_no_separator(s: Seq<char>)
    ensures
        file_name_of(s) matches Some(name) ==> !name.contains('/'),
{
    pieces_hold_no_separator(s, '/', '/');
    lemma_file_name(s, '/');
}

/// The name that a path ends in holds no character that the path does not hold.
pub proof fn names_come_from_the_path(s: Seq<char>, c: char)
    requires
        !s.contains(c),
    ensures
        file_name_of(s) matches Some(name) ==> !name.contains(c),
{
    lemma_pieces_within(s, '/', '/', c);
    lemma_file_name(s, c);
}

/// A path in normal form.
pub open spec fn normal_form(s: Seq<char>) -> Seq<char> {
    rendered_parts(parts_of(s))
}

/// Brings a path into normal form.
pub fn normalize(path: &str) -> (r: String)
    ensures
        r@ == normal_form(path@),
{
    let parts = components(path);
    assert(parts_view(parts@).subrange(0, parts@.len() as int) == parts_of(path@));
    render(&parts, parts.len())
}

/// Tests whether two paths have the same components.
pub fn same_path(a: &str, b: &str) -> (r: bool)
    ensures
        r == (parts_of(a@) == parts_of(b@)),
{
    let r = starts_with(a, b) && starts_with(b, a);
    proof {
        let x = parts_of(a@);
        let y = parts_of(b@);
        if r {
            assert(x.len() == y.len());
            assert(x.subrange(0, y.len() as int) == x);
        }
        if x == y {
            assert(x.subrange(0, x.len() as int) == x);
        }
    }
    r
}

} // verus!
