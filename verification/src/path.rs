use vstd::prelude::*;
use vstd::string::*;

use crate::text::chars_of;

verus! {

/// The stretches of a path between its separators.
pub open spec fn pieces(path: Seq<char>) -> Seq<Seq<char>>
    decreases path.len(),
{
    if path.len() == 0 {
        seq![Seq::<char>::empty()]
    } else {
        let done = pieces(path.drop_last());
        if path.last() == '/' {
            done.push(Seq::empty())
        } else {
            done.drop_last().push(done.last().push(path.last()))
        }
    }
}

/// The pieces that name something: the empty ones drop out, and so does `.` anywhere but at the
/// very start.
pub open spec fn naming(all: Seq<Seq<char>>) -> Seq<Seq<char>>
    decreases all.len(),
{
    if all.len() == 0 {
        Seq::empty()
    } else {
        let rest = naming(all.drop_last());
        if all.last().len() == 0 || (all.last() == seq!['.'] && all.len() > 1) {
            rest
        } else {
            rest.push(all.last())
        }
    }
}

/// The names that a path steps through.
pub open spec fn path_names(path: Seq<char>) -> Seq<Seq<char>> {
    naming(pieces(path))
}

/// Whether a path starts at the root.
pub open spec fn rooted(path: Seq<char>) -> bool {
    path.len() > 0 && path[0] == '/'
}

/// Two spellings of one path: both or neither start at the root, and they step through the same
/// names. Repeated separators, a separator at the end and `.` in the middle do not count.
pub open spec fn same_place(a: Seq<char>, b: Seq<char>) -> bool {
    rooted(a) == rooted(b) && path_names(a) == path_names(b)
}

/// A path that starts at the root and never steps up.
pub open spec fn safe_place(path: Seq<char>) -> bool {
    rooted(path) && !path_names(path).contains(seq!['.', '.'])
}

/// Whether `dir` is the directory that holds `path`.
pub open spec fn parent_place(path: Seq<char>, dir: Seq<char>) -> bool {
    &&& path_names(path).len() > 0
    &&& rooted(path) == rooted(dir)
    &&& path_names(path).drop_last() == path_names(dir)
}

/// The path without the separators and `.` steps at its end.
pub open spec fn trimmed(path: Seq<char>) -> Seq<char>
    decreases path.len(),
{
    if path.len() > 0 && path.last() == '/' {
        trimmed(path.drop_last())
    } else if path.len() > 1 && path.last() == '.' && path[path.len() - 2] == '/' {
        trimmed(path.drop_last())
    } else {
        path
    }
}

/// How many characters follow the last separator.
pub open spec fn tail_len(path: Seq<char>) -> nat
    decreases path.len(),
{
    if path.len() == 0 || path.last() == '/' {
        0
    } else {
        1 + tail_len(path.drop_last())
    }
}

/// The last name of a path, if the path ends in one (and not in `.`, `..` or the root).
pub open spec fn last_name(path: Seq<char>) -> Option<Seq<char>> {
    let kept = trimmed(path);
    let name = kept.skip(kept.len() - tail_len(kept));
    if name.len() == 0 || name == seq!['.'] || name == seq!['.', '.'] {
        None
    } else {
        Some(name)
    }
}

/// How many characters of a name stand before its extension: all of them where there is no dot,
/// or none but at the start.
pub open spec fn stem_len(name: Seq<char>) -> nat
    decreases name.len(),
{
    if name.len() == 0 {
        0
    } else if name.last() == '.' {
        (name.len() - 1) as nat
    } else {
        stem_len(name.drop_last())
    }
}

/// The path with its extension replaced, as given with its dot. A path that ends in no name is
/// left as it is.
pub open spec fn with_extension(path: Seq<char>, dotted: Seq<char>) -> Seq<char> {
    match last_name(path) {
        None => path,
        Some(name) => {
            let kept = trimmed(path);
            let stem = if stem_len(name) == 0 {
                name.len()
            } else {
                stem_len(name)
            };
            kept.take(kept.len() - name.len() + stem) + dotted
        },
    }
}

/// A path below a directory: a rooted one stands for itself.
pub open spec fn joined(dir: Seq<char>, path: Seq<char>) -> Seq<char> {
    if rooted(path) {
        path
    } else if dir.len() == 0 || dir.last() == '/' {
        dir + path
    } else {
        dir + seq!['/'] + path
    }
}

/// The directory that a path names its file in: `.` where it names none.
pub open spec fn parent_text(path: Seq<char>) -> Seq<char> {
    let kept = trimmed(path);
    let front = trimmed(kept.take(kept.len() - tail_len(kept)));
    if front.len() > 0 {
        front
    } else if rooted(path) {
        seq!['/']
    } else {
        seq!['.']
    }
}

/// The characters of each piece.
pub open spec fn piece_views(v: Seq<Vec<char>>) -> Seq<Seq<char>> {
    v.map_values(|p: Vec<char>| p@)
}

fn pieces_of(path: &Vec<char>) -> (r: Vec<Vec<char>>)
    ensures
        piece_views(r@) == pieces(path@),
{
    let mut done: Vec<Vec<char>> = Vec::new();
    let mut open: Vec<char> = Vec::new();
    let mut i: usize = 0;
    proof {
        assert(path@.take(0) =~= Seq::<char>::empty());
        assert(piece_views(done@).push(open@) =~= seq![Seq::<char>::empty()]);
    }
    while i < path.len()
        invariant
            i <= path@.len(),
            piece_views(done@).push(open@) == pieces(path@.take(i as int)),
        decreases path@.len() - i,
    {
        let c: char = path[i];
        let ghost before = piece_views(done@).push(open@);
        proof {
            assert(path@.take(i + 1).drop_last() =~= path@.take(i as int));
            assert(before.drop_last() =~= piece_views(done@));
        }
        if c == '/' {
            let ghost closed = open@;
            done.push(open);
            open = Vec::new();
            assert(piece_views(done@) =~= before);
        } else {
            open.push(c);
            assert(piece_views(done@).push(open@) =~= before.drop_last().push(before.last().push(c)));
        }
        i += 1;
    }
    let ghost before = piece_views(done@).push(open@);
    done.push(open);
    assert(piece_views(done@) =~= before);
    assert(path@.take(path@.len() as int) =~= path@);
    done
}

/// Whether two runs of characters are the same.
fn same_chars(a: &Vec<char>, b: &Vec<char>) -> (r: bool)
    ensures
        r == (a@ == b@),
{
    if a.len() != b.len() {
        return false;
    }
    let mut i: usize = 0;
    while i < a.len()
        invariant
            i <= a@.len(),
            a@.len() == b@.len(),
            forall|j: int| 0 <= j < i ==> a@[j] == b@[j],
        decreases a@.len() - i,
    {
        if a[i] != b[i] {
            return false;
        }
        i += 1;
    }
    assert(a@ =~= b@);
    true
}

fn is_here(p: &Vec<char>) -> (r: bool)
    ensures
        r == (p@ == seq!['.']),
{
    if p.len() == 1 && p[0] == '.' {
        assert(p@ =~= seq!['.']);
        true
    } else {
        false
    }
}

fn is_up(p: &Vec<char>) -> (r: bool)
    ensures
        r == (p@ == seq!['.', '.']),
{
    if p.len() == 2 && p[0] == '.' && p[1] == '.' {
        assert(p@ =~= seq!['.', '.']);
        true
    } else {
        false
    }
}

/// The names that a path steps through, in order.
fn names_of(path: &Vec<char>) -> (r: Vec<Vec<char>>)
    ensures
        piece_views(r@) == path_names(path@),
{
    let mut all = pieces_of(path);
    let ghost whole = piece_views(all@);
    let mut out: Vec<Vec<char>> = Vec::new();
    let mut i: usize = 0;
    proof {
        assert(whole.take(0) =~= Seq::empty());
        assert(piece_views(out@) =~= Seq::empty());
    }
    while i < all.len()
        invariant
            i <= all@.len(),
            whole == piece_views(all@),
            piece_views(out@) == naming(whole.take(i as int)),
        decreases all@.len() - i,
    {
        assert(whole.take(i + 1).drop_last() =~= whole.take(i as int));
        assert(whole.take(i + 1).last() == all@[i as int]@);
        if !(all[i].len() == 0 || (is_here(&all[i]) && i > 0)) {
            let piece = all[i].clone();
            assert(piece@ =~= all@[i as int]@);
            let ghost prior = piece_views(out@);
            out.push(piece);
            assert(piece_views(out@) =~= prior.push(all@[i as int]@));
        }
        i += 1;
    }
    assert(whole.take(whole.len() as int) =~= whole);
    out
}

fn same_names(a: &Vec<Vec<char>>, b: &Vec<Vec<char>>) -> (r: bool)
    ensures
        r == (piece_views(a@) == piece_views(b@)),
{
    if a.len() != b.len() {
        assert(piece_views(a@).len() != piece_views(b@).len());
        return false;
    }
    let mut i: usize = 0;
    while i < a.len()
        invariant
            i <= a@.len(),
            a@.len() == b@.len(),
            forall|j: int| 0 <= j < i ==> piece_views(a@)[j] == piece_views(b@)[j],
        decreases a@.len() - i,
    {
        if !same_chars(&a[i], &b[i]) {
            assert(piece_views(a@)[i as int] != piece_views(b@)[i as int]);
            return false;
        }
        i += 1;
    }
    assert(piece_views(a@) =~= piece_views(b@));
    true
}

fn is_rooted(path: &Vec<char>) -> (r: bool)
    ensures
        r == rooted(path@),
{
    path.len() > 0 && path[0] == '/'
}

/// Whether two paths are spellings of one path.
pub fn same_path(a: &str, b: &str) -> (r: bool)
    ensures
        r == same_place(a@, b@),
{
    let x = chars_of(a);
    let y = chars_of(b);
    is_rooted(&x) == is_rooted(&y) && same_names(&names_of(&x), &names_of(&y))
}

/// Whether a path starts at the root and never steps up.
pub fn safe_absolute_path(path: &str) -> (r: bool)
    ensures
        r == safe_place(path@),
{
    let chars = chars_of(path);
    if !is_rooted(&chars) {
        return false;
    }
    let names = names_of(&chars);
    let mut i: usize = 0;
    while i < names.len()
        invariant
            i <= names@.len(),
            piece_views(names@) == path_names(path@),
            rooted(path@),
            forall|j: int| 0 <= j < i ==> path_names(path@)[j] != seq!['.', '.'],
        decreases names@.len() - i,
    {
        if is_up(&names[i]) {
            assert(path_names(path@)[i as int] == names@[i as int]@);
            return false;
        }
        assert(path_names(path@)[i as int] == names@[i as int]@);
        i += 1;
    }
    true
}

/// Whether `dir` is the directory that holds `path`.
pub fn is_parent(path: &str, dir: &str) -> (r: bool)
    ensures
        r == parent_place(path@, dir@),
{
    let x = chars_of(path);
    let y = chars_of(dir);
    let mut names = names_of(&x);
    let ghost whole = piece_views(names@);
    if names.len() == 0 {
        return false;
    }
    names.pop();
    assert(piece_views(names@) =~= whole.drop_last());
    is_rooted(&x) == is_rooted(&y) && same_names(&names, &names_of(&y))
}

fn trim_end(path: &Vec<char>) -> (r: usize)
    ensures
        r <= path@.len(),
        path@.take(r as int) == trimmed(path@),
{
    let mut n: usize = path.len();
    assert(path@.take(n as int) =~= path@);
    while n > 0 && (path[n - 1] == '/' || (n > 1 && path[n - 1] == '.' && path[n - 2] == '/'))
        invariant
            n <= path@.len(),
            trimmed(path@.take(n as int)) == trimmed(path@),
        decreases n,
    {
        assert(path@.take(n as int).drop_last() =~= path@.take(n - 1));
        n -= 1;
    }
    n
}

fn tail_start(path: &Vec<char>, end: usize) -> (r: usize)
    requires
        end <= path@.len(),
    ensures
        r <= end,
        r == end - tail_len(path@.take(end as int)),
{
    let mut n: usize = end;
    while n > 0 && path[n - 1] != '/'
        invariant
            n <= end <= path@.len(),
            tail_len(path@.take(end as int)) == (end - n) + tail_len(path@.take(n as int)),
        decreases n,
    {
        assert(path@.take(n as int).drop_last() =~= path@.take(n - 1));
        n -= 1;
    }
    n
}

/// The place of the last name of a path in the path's characters.
fn name_bounds(path: &Vec<char>) -> (r: Option<(usize, usize)>)
    ensures
        match r {
            Some((start, end)) => {
                &&& start < end <= path@.len()
                &&& path@.take(end as int) == trimmed(path@)
                &&& last_name(path@) == Some(path@.subrange(start as int, end as int))
            },
            None => last_name(path@) is None,
        },
{
    let end = trim_end(path);
    let start = tail_start(path, end);
    let ghost kept = trimmed(path@);
    let ghost name = kept.skip(kept.len() - tail_len(kept));
    assert(name =~= path@.subrange(start as int, end as int));
    if start == end {
        return None;
    }
    if end - start == 1 && path[start] == '.' {
        assert(name =~= seq!['.']);
        return None;
    }
    if end - start == 2 && path[start] == '.' && path[start + 1] == '.' {
        assert(name =~= seq!['.', '.']);
        return None;
    }
    assert(name != seq!['.']) by {
        if name == seq!['.'] {
            assert(name.len() == 1 && name[0] == '.');
        }
    }
    assert(name != seq!['.', '.']) by {
        if name == seq!['.', '.'] {
            assert(name.len() == 2 && name[0] == '.' && name[1] == '.');
        }
    }
    Some((start, end))
}

fn slice_of(chars: &Vec<char>, start: usize, end: usize) -> (r: String)
    requires
        start <= end <= chars@.len(),
    ensures
        r@ == chars@.subrange(start as int, end as int),
{
    let mut out: String = String::new();
    let mut i: usize = start;
    while i < end
        invariant
            start <= i <= end <= chars@.len(),
            out@ =~= chars@.subrange(start as int, i as int),
        decreases end - i,
    {
        out.push(chars[i]);
        i += 1;
    }
    out
}

/// The last name of a path, if the path ends in one.
pub fn file_name(path: &str) -> (r: Option<String>)
    ensures
        match r {
            Some(name) => last_name(path@) == Some(name@),
            None => last_name(path@) is None,
        },
{
    let chars = chars_of(path);
    match name_bounds(&chars) {
        Some((start, end)) => Some(slice_of(&chars, start, end)),
        None => None,
    }
}

/// The directory that a path names its file in: `.` where it names none.
pub fn parent_path(path: &str) -> (r: String)
    ensures
        r@ == parent_text(path@),
{
    let chars = chars_of(path);
    let end = trim_end(&chars);
    let start = tail_start(&chars, end);
    let ghost kept = trimmed(path@);
    let mut front: Vec<char> = Vec::new();
    let mut i: usize = 0;
    while i < start
        invariant
            i <= start <= chars@.len(),
            front@ =~= chars@.take(i as int),
        decreases start - i,
    {
        front.push(chars[i]);
        i += 1;
    }
    assert(front@ =~= kept.take(kept.len() - tail_len(kept)));
    let n = trim_end(&front);
    if n > 0 {
        let r = slice_of(&front, 0, n);
        assert(r@ =~= trimmed(front@));
        r
    } else if is_rooted(&chars) {
        let mut r: String = String::new();
        r.push('/');
        assert(r@ =~= seq!['/']);
        r
    } else {
        let mut r: String = String::new();
        r.push('.');
        assert(r@ =~= seq!['.']);
        r
    }
}

/// The path with its extension replaced by the one given with its dot.
pub fn replace_extension(path: &str, dotted: &str) -> (r: String)
    ensures
        r@ == with_extension(path@, dotted@),
{
    let chars = chars_of(path);
    match name_bounds(&chars) {
        None => path.to_owned(),
        Some((start, end)) => {
            let ghost name = chars@.subrange(start as int, end as int);
            let mut n: usize = end;
            assert(chars@.subrange(start as int, n as int) =~= name);
            while n > start && chars[n - 1] != '.'
                invariant
                    start <= n <= end <= chars@.len(),
                    name == chars@.subrange(start as int, end as int),
                    stem_len(chars@.subrange(start as int, n as int)) == stem_len(name),
                decreases n,
            {
                assert(chars@.subrange(start as int, n as int).drop_last() =~= chars@.subrange(
                    start as int,
                    n - 1,
                ));
                n -= 1;
            }
            let stem_end: usize = if n <= start + 1 {
                end
            } else {
                n - 1
            };
            let ghost kept = trimmed(path@);
            assert(kept.len() - name.len() == start);
            assert(kept.take(stem_end as int) =~= chars@.subrange(0, stem_end as int));
            slice_of(&chars, 0, stem_end).concat(dotted)
        },
    }
}

/// A path below a directory.
pub fn join_path(dir: &str, path: &str) -> (r: String)
    ensures
        r@ == joined(dir@, path@),
{
    let x = chars_of(dir);
    let y = chars_of(path);
    if is_rooted(&y) {
        path.to_owned()
    } else if x.len() == 0 || x[x.len() - 1] == '/' {
        dir.to_owned().concat(path)
    } else {
        let mut out: String = dir.to_owned();
        out.push('/');
        assert(dir@.push('/') =~= dir@ + seq!['/']);
        out.concat(path)
    }
}

/// Spelling does not matter to whether a path is safe.
pub proof fn same_place_is_as_safe(a: Seq<char>, b: Seq<char>)
    requires
        same_place(a, b),
    ensures
        safe_place(a) == safe_place(b),
{
}

/// The pieces put together again, with a slash between each two.
pub open spec fn slashed(all: Seq<Seq<char>>) -> Seq<char>
    decreases all.len(),
{
    if all.len() == 0 {
        Seq::empty()
    } else if all.len() == 1 {
        all[0]
    } else {
        slashed(all.drop_last()) + seq!['/'] + all.last()
    }
}

/// The pieces of a path are what its slashes part: there is at least one, none holds a slash, and
/// with a slash between each two they are the path again.
pub proof fn slashes_part_the_pieces(path: Seq<char>)
    ensures
        pieces(path).len() > 0,
        forall|i: int| 0 <= i < pieces(path).len() ==> !(#[trigger] pieces(path)[i]).contains('/'),
        slashed(pieces(path)) == path,
    decreases path.len(),
{
    reveal_with_fuel(slashed, 2);
    if path.len() == 0 {
        assert(slashed(pieces(path)) =~= path);
    } else {
        let front = path.drop_last();
        let done = pieces(front);
        let all = pieces(path);
        slashes_part_the_pieces(front);
        if path.last() == '/' {
            assert(all.drop_last() =~= done);
            assert(all.last() =~= Seq::empty());
            assert(slashed(all) =~= path);
        } else {
            let piece = done.last().push(path.last());
            assert(all.drop_last() =~= done.drop_last());
            assert(all.last() == piece);
            assert forall|i: int| 0 <= i < all.len() implies !(#[trigger] all[i]).contains('/') by {
                if i < all.len() - 1 {
                    assert(all[i] == done[i]);
                } else {
                    assert(!done[done.len() - 1].contains('/'));
                    if piece.contains('/') {
                        let k = choose|k: int| 0 <= k < piece.len() && piece[k] == '/';
                        if k < done.last().len() {
                            assert(done.last()[k] == '/');
                        }
                    }
                }
            }
            if done.len() == 1 {
                assert(slashed(done) == done[0]);
                assert(all =~= seq![piece]);
                assert(slashed(all) == piece);
                assert(piece =~= path);
            } else {
                let before = slashed(done.drop_last()) + seq!['/'];
                assert(slashed(done) == before + done.last());
                assert(slashed(all) == before + piece);
                assert(before + piece =~= (before + done.last()).push(path.last()));
                assert(path =~= front.push(path.last()));
            }
        }
    }
}

proof fn pieces_after_a_slash(dir: Seq<char>, name: Seq<char>)
    requires
        !name.contains('/'),
    ensures
        pieces(dir + seq!['/'] + name) == pieces(dir).push(name),
    decreases name.len(),
{
    let path = dir + seq!['/'] + name;
    if name.len() == 0 {
        assert(path.drop_last() =~= dir);
        assert(path.last() == '/');
        assert(name =~= Seq::empty());
    } else {
        let front = name.drop_last();
        assert(!front.contains('/')) by {
            if front.contains('/') {
                let k = choose|k: int| 0 <= k < front.len() && front[k] == '/';
                assert(name[k] == '/');
            }
        }
        pieces_after_a_slash(dir, front);
        assert(path.drop_last() =~= dir + seq!['/'] + front);
        assert(path.last() == name.last());
        assert(name.last() != '/') by {
            assert(name[name.len() - 1] == name.last());
        }
        let done = pieces(path.drop_last());
        assert(done.drop_last() =~= pieces(dir));
        assert(done.last().push(path.last()) =~= name);
    }
}

/// A name behind a slash is one more name of the path; nothing behind a slash, and a single dot
/// behind one, add none.
pub proof fn a_slash_adds_a_name(dir: Seq<char>, name: Seq<char>)
    requires
        !name.contains('/'),
    ensures
        name.len() > 0 && name != seq!['.'] ==> path_names(dir + seq!['/'] + name) == path_names(
            dir,
        ).push(name),
        path_names(dir + seq!['/']) == path_names(dir),
        path_names(dir + seq!['/', '.']) == path_names(dir),
        dir.len() > 0 ==> same_place(dir + seq!['/'], dir) && same_place(
            dir + seq!['/', '.'],
            dir,
        ),
        dir.len() > 0 ==> same_place(
            dir + seq!['/'] + seq!['/'] + name,
            dir + seq!['/'] + name,
        ),
        dir.len() > 0 ==> same_place(
            dir + seq!['/', '.'] + seq!['/'] + name,
            dir + seq!['/'] + name,
        ),
{
    let empty = Seq::<char>::empty();
    let dot = seq!['.'];
    slashes_part_the_pieces(dir);
    pieces_after_a_slash(dir, name);
    pieces_after_a_slash(dir, empty);
    pieces_after_a_slash(dir, dot);
    assert(dir + seq!['/'] + empty =~= dir + seq!['/']);
    assert(dir + seq!['/'] + dot =~= dir + seq!['/', '.']);
    pieces_after_a_slash(dir + seq!['/'], name);
    pieces_after_a_slash(dir + seq!['/', '.'], name);
    let base = pieces(dir);
    assert(base.push(name).drop_last() =~= base);
    assert(base.push(empty).drop_last() =~= base);
    assert(base.push(dot).drop_last() =~= base);
    assert(base.push(empty).push(name).drop_last() =~= base.push(empty));
    assert(base.push(dot).push(name).drop_last() =~= base.push(dot));
    if dir.len() > 0 {
        assert((dir + seq!['/'])[0] == dir[0]);
        assert((dir + seq!['/', '.'])[0] == dir[0]);
        assert((dir + seq!['/'] + name)[0] == dir[0]);
        assert((dir + seq!['/'] + seq!['/'] + name)[0] == dir[0]);
        assert((dir + seq!['/', '.'] + seq!['/'] + name)[0] == dir[0]);
    }
}

/// Two paths are at one place exactly if both or neither start at the root and they have the same
/// names in the same order; under one directory, different names are different places.
pub proof fn different_names_are_different_places(dir: Seq<char>, a: Seq<char>, b: Seq<char>)
    requires
        !a.contains('/'),
        !b.contains('/'),
        a.len() > 0,
        b.len() > 0,
        a != seq!['.'],
        b != seq!['.'],
        dir.len() > 0,
    ensures
        same_place(dir + seq!['/'] + a, dir + seq!['/'] + b) <==> a == b,
        !same_place(dir + seq!['/'] + a, dir),
        parent_place(dir + seq!['/'] + a, dir),
        !parent_place(dir, dir),
{
    a_slash_adds_a_name(dir, a);
    a_slash_adds_a_name(dir, b);
    let names = path_names(dir);
    assert(names.push(a).last() == a);
    assert(names.push(b).last() == b);
    assert(names.push(a).len() == names.len() + 1);
    assert(names.push(a).drop_last() =~= names);
    assert((dir + seq!['/'] + a)[0] == dir[0]);
    assert((dir + seq!['/'] + b)[0] == dir[0]);
    if parent_place(dir, dir) {
        assert(path_names(dir).drop_last().len() == path_names(dir).len() - 1);
    }
}

proof fn kept_names(all: Seq<Seq<char>>, name: Seq<char>)
    requires
        name.len() > 1,
    ensures
        naming(all).contains(name) <==> all.contains(name),
    decreases all.len(),
{
    if all.len() > 0 {
        let front = all.drop_last();
        kept_names(front, name);
        let rest = naming(front);
        if all.contains(name) {
            let i = choose|i: int| 0 <= i < all.len() && all[i] == name;
            if i < all.len() - 1 {
                assert(front[i] == name);
                let k = choose|k: int| 0 <= k < rest.len() && rest[k] == name;
                assert(naming(all)[k] == name);
            } else {
                assert(naming(all)[rest.len() as int] == name);
            }
        }
        if naming(all).contains(name) {
            let k = choose|k: int| 0 <= k < naming(all).len() && naming(all)[k] == name;
            if k < rest.len() {
                assert(rest[k] == name);
                let i = choose|i: int| 0 <= i < front.len() && front[i] == name;
                assert(all[i] == name);
            } else {
                assert(all[all.len() - 1] == name);
            }
        }
    }
}

/// A place is safe exactly if its path starts with a slash and no piece of it goes up.
pub proof fn safe_places_never_go_up(path: Seq<char>)
    ensures
        safe_place(path) <==> path.len() > 0 && path[0] == '/' && forall|i: int|
            0 <= i < pieces(path).len() ==> #[trigger] pieces(path)[i] != seq!['.', '.'],
{
    let up = seq!['.', '.'];
    kept_names(pieces(path), up);
    if pieces(path).contains(up) {
        let i = choose|i: int| 0 <= i < pieces(path).len() && pieces(path)[i] == up;
        assert(pieces(path)[i] == up);
    }
}

proof fn tail_behind_a_slash(dir: Seq<char>, name: Seq<char>)
    requires
        !name.contains('/'),
    ensures
        tail_len(dir + seq!['/'] + name) == name.len(),
    decreases name.len(),
{
    let path = dir + seq!['/'] + name;
    if name.len() > 0 {
        let front = name.drop_last();
        assert(!front.contains('/')) by {
            if front.contains('/') {
                let k = choose|k: int| 0 <= k < front.len() && front[k] == '/';
                assert(name[k] == '/');
            }
        }
        tail_behind_a_slash(dir, front);
        assert(path.drop_last() =~= dir + seq!['/'] + front);
        assert(path.last() != '/') by {
            assert(name[name.len() - 1] == path.last());
        }
    }
}

proof fn names_are_not_trimmed(dir: Seq<char>, name: Seq<char>)
    requires
        !name.contains('/'),
        name.len() > 0,
        name != seq!['.'],
    ensures
        trimmed(dir + seq!['/'] + name) == dir + seq!['/'] + name,
{
    let path = dir + seq!['/'] + name;
    assert(path.last() != '/') by {
        assert(name[name.len() - 1] == path.last());
    }
    if path.last() == '.' {
        assert(path.last() == name.last());
        if name.len() == 1 {
            assert(name =~= seq!['.']);
        } else {
            assert(path[path.len() - 2] == name[name.len() - 2]);
        }
    }
}

/// The last name of a path is what stands behind its last slash, unless that is a dot or two;
/// slashes at the end of a path, and single dots, do not count.
pub proof fn the_last_name_stands_behind_the_last_slash(dir: Seq<char>, name: Seq<char>)
    requires
        !name.contains('/'),
        name.len() > 0,
        name != seq!['.'],
    ensures
        name != seq!['.', '.'] ==> last_name(dir + seq!['/'] + name) == Some(name),
        name == seq!['.', '.'] ==> last_name(dir + seq!['/'] + name) is None,
        last_name(dir + seq!['/']) == last_name(dir),
        last_name(dir + seq!['/', '.']) == last_name(dir),
{
    let path = dir + seq!['/'] + name;
    tail_behind_a_slash(dir, name);
    names_are_not_trimmed(dir, name);
    assert(path.skip(path.len() - name.len()) =~= name);
    ends_are_trimmed(dir);
}

proof fn ends_are_trimmed(dir: Seq<char>)
    ensures
        trimmed(dir + seq!['/']) == trimmed(dir),
        trimmed(dir + seq!['/', '.']) == trimmed(dir),
{
    let slash = dir.push('/');
    let dotted = slash.push('.');
    assert(dir + seq!['/'] =~= slash);
    assert(dir + seq!['/', '.'] =~= dotted);
    assert(slash.drop_last() =~= dir);
    assert(dotted.drop_last() =~= slash);
    assert(trimmed(slash) == trimmed(dir));
    assert(trimmed(dotted) == trimmed(slash));
}

proof fn stem_before_the_dot(stem: Seq<char>, ext: Seq<char>)
    requires
        !ext.contains('.'),
    ensures
        stem_len(stem + seq!['.'] + ext) == stem.len(),
    decreases ext.len(),
{
    let name = stem + seq!['.'] + ext;
    if ext.len() > 0 {
        let front = ext.drop_last();
        assert(!front.contains('.')) by {
            if front.contains('.') {
                let k = choose|k: int| 0 <= k < front.len() && front[k] == '.';
                assert(ext[k] == '.');
            }
        }
        stem_before_the_dot(stem, front);
        assert(name.drop_last() =~= stem + seq!['.'] + front);
        assert(name.last() != '.') by {
            assert(ext[ext.len() - 1] == name.last());
        }
    }
}

proof fn no_dot_no_stem(name: Seq<char>)
    requires
        !name.contains('.'),
    ensures
        stem_len(name) == 0,
    decreases name.len(),
{
    if name.len() > 0 {
        let front = name.drop_last();
        assert(!front.contains('.')) by {
            if front.contains('.') {
                let k = choose|k: int| 0 <= k < front.len() && front[k] == '.';
                assert(name[k] == '.');
            }
        }
        no_dot_no_stem(front);
        assert(name[name.len() - 1] == name.last());
    }
}

/// A new extension takes the place of what follows the last dot of the last name, and that dot; a
/// name without a dot, or with only a leading one, keeps all it has in front of the new extension.
pub proof fn extensions_follow_the_last_dot(
    dir: Seq<char>,
    stem: Seq<char>,
    ext: Seq<char>,
    dotted: Seq<char>,
)
    requires
        !stem.contains('/'),
        !ext.contains('/'),
        !ext.contains('.'),
        stem.len() > 0,
        stem + seq!['.'] + ext != seq!['.', '.'],
    ensures
        with_extension(dir + seq!['/'] + stem + seq!['.'] + ext, dotted) == dir + seq!['/'] + stem
            + dotted,
        !stem.contains('.') ==> with_extension(dir + seq!['/'] + stem, dotted) == dir + seq!['/']
            + stem + dotted,
        ext.len() > 0 ==> with_extension(dir + seq!['/', '.'] + ext, dotted) == dir + seq!['/', '.']
            + ext + dotted,
{
    let name = stem + seq!['.'] + ext;
    assert(!name.contains('/')) by {
        if name.contains('/') {
            let k = choose|k: int| 0 <= k < name.len() && name[k] == '/';
            if k < stem.len() {
                assert(stem[k] == '/');
            } else if k > stem.len() {
                assert(ext[k - stem.len() - 1] == '/');
            }
        }
    }
    assert(name != seq!['.']) by {
        assert(name.len() > 1);
    }
    let path = dir + seq!['/'] + stem + seq!['.'] + ext;
    assert(path =~= dir + seq!['/'] + name);
    the_last_name_stands_behind_the_last_slash(dir, name);
    names_are_not_trimmed(dir, name);
    stem_before_the_dot(stem, ext);
    assert(path.take(path.len() - name.len() + stem.len()) =~= dir + seq!['/'] + stem);
    if !stem.contains('.') {
        let plain = dir + seq!['/'] + stem;
        assert(stem != seq!['.']) by {
            if stem == seq!['.'] {
                assert(stem[0] == '.');
            }
        }
        assert(stem != seq!['.', '.']) by {
            if stem == seq!['.', '.'] {
                assert(stem[0] == '.');
            }
        }
        the_last_name_stands_behind_the_last_slash(dir, stem);
        names_are_not_trimmed(dir, stem);
        no_dot_no_stem(stem);
        assert(plain.take(plain.len() as int) =~= plain);
    }
    if ext.len() > 0 {
        let hidden = seq!['.'] + ext;
        let plain = dir + seq!['/', '.'] + ext;
        assert(plain =~= dir + seq!['/'] + hidden);
        assert(!hidden.contains('/')) by {
            if hidden.contains('/') {
                let k = choose|k: int| 0 <= k < hidden.len() && hidden[k] == '/';
                assert(ext[k - 1] == '/');
            }
        }
        assert(hidden != seq!['.']) by {
            assert(hidden.len() > 1);
        }
        assert(hidden != seq!['.', '.']) by {
            if hidden == seq!['.', '.'] {
                assert(hidden[1] == '.');
                assert(ext[0] == '.');
            }
        }
        the_last_name_stands_behind_the_last_slash(dir, hidden);
        names_are_not_trimmed(dir, hidden);
        stem_before_the_dot(Seq::empty(), ext);
        assert(Seq::<char>::empty() + seq!['.'] + ext =~= hidden);
        assert(plain.take(plain.len() as int) =~= plain);
    }
}

/// A path that does not start at the root is joined to a directory by one slash, and one that does
/// stands for itself.
pub proof fn paths_are_joined_by_one_slash(dir: Seq<char>, name: Seq<char>)
    requires
        dir.len() > 0,
        name.len() > 0,
        name[0] != '/',
    ensures
        dir.last() != '/' ==> joined(dir, name) == dir + seq!['/'] + name,
        dir.last() == '/' ==> joined(dir, name) == dir + name,
        joined(dir, seq!['/'] + name) == seq!['/'] + name,
        joined(Seq::empty(), name) == name,
{
    assert(Seq::<char>::empty() + name =~= name);
}

/// The text of the directory of a path is what stands in front of the last name, without slashes at
/// the end; the root is the directory of what lies in it, and a bare name lies where it is looked
/// for.
pub proof fn the_parent_stands_before_the_last_name(dir: Seq<char>, name: Seq<char>)
    requires
        !name.contains('/'),
        name.len() > 0,
        name != seq!['.'],
    ensures
        trimmed(dir).len() > 0 ==> parent_text(dir + seq!['/'] + name) == trimmed(dir),
        parent_text(seq!['/'] + name) == seq!['/'],
        parent_text(name) == seq!['.'],
{
    let path = dir + seq!['/'] + name;
    tail_behind_a_slash(dir, name);
    names_are_not_trimmed(dir, name);
    assert(path.take(path.len() - name.len()) =~= dir + seq!['/']);
    assert((dir + seq!['/']).drop_last() =~= dir);
    let empty = Seq::<char>::empty();
    let top = seq!['/'] + name;
    assert(top =~= empty + seq!['/'] + name);
    tail_behind_a_slash(empty, name);
    names_are_not_trimmed(empty, name);
    assert(top.take(top.len() - name.len()) =~= seq!['/']);
    assert(seq!['/'].drop_last() =~= empty);
    reveal_with_fuel(trimmed, 3);
    assert(trimmed(seq!['/']) =~= empty);
    bare_names(name);
    assert(name.take(0) =~= empty);
    assert(name[0] != '/');
}

proof fn bare_names(name: Seq<char>)
    requires
        !name.contains('/'),
        name != seq!['.'],
    ensures
        trimmed(name) == name,
        tail_len(name) == name.len(),
{
    whole_tail(name);
    if name.len() > 0 {
        assert(name[name.len() - 1] == name.last());
        if name.len() > 1 {
            assert(name[name.len() - 2] != '/');
        }
    }
}

proof fn whole_tail(name: Seq<char>)
    requires
        !name.contains('/'),
    ensures
        tail_len(name) == name.len(),
    decreases name.len(),
{
    if name.len() > 0 {
        let front = name.drop_last();
        assert(!front.contains('/')) by {
            if front.contains('/') {
                let k = choose|k: int| 0 <= k < front.len() && front[k] == '/';
                assert(name[k] == '/');
            }
        }
        whole_tail(front);
        assert(name[name.len() - 1] == name.last());
    }
}

/// A directory is the parent of a path exactly if both or neither start at the root, and the names
/// of the path are those of the directory and one more.
pub proof fn parents_lack_the_last_name(path: Seq<char>, dir: Seq<char>)
    ensures
        parent_place(path, dir) <==> {
            &&& (path.len() > 0 && path[0] == '/') == (dir.len() > 0 && dir[0] == '/')
            &&& path_names(path).len() == path_names(dir).len() + 1
            &&& forall|i: int|
                0 <= i < path_names(dir).len() ==> #[trigger] path_names(dir)[i] == path_names(
                    path,
                )[i]
        },
{
    let names = path_names(path);
    let above = path_names(dir);
    if parent_place(path, dir) {
        assert forall|i: int| 0 <= i < above.len() implies #[trigger] above[i] == names[i] by {
            assert(names.drop_last()[i] == names[i]);
        }
    }
    if names.len() == above.len() + 1 && forall|i: int|
        0 <= i < above.len() ==> #[trigger] above[i] == names[i] {
        assert(names.drop_last() =~= above);
    }
}

/// Two paths are at one place exactly if both or neither start at the root and they have the same
/// names in the same order.
pub proof fn one_place_has_one_list_of_names(a: Seq<char>, b: Seq<char>)
    ensures
        same_place(a, b) <==> {
            &&& (a.len() > 0 && a[0] == '/') == (b.len() > 0 && b[0] == '/')
            &&& path_names(a).len() == path_names(b).len()
            &&& forall|i: int|
                0 <= i < path_names(a).len() ==> #[trigger] path_names(a)[i] == path_names(b)[i]
        },
{
    if path_names(a).len() == path_names(b).len() && forall|i: int|
        0 <= i < path_names(a).len() ==> #[trigger] path_names(a)[i] == path_names(b)[i] {
        assert(path_names(a) =~= path_names(b));
    }
}

} // verus!
