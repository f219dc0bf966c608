//! Unix path components, as a path is read component by component: a leading
//! `/` is the root, a leading `.` segment is the current directory, empty and
//! `.` segments elsewhere vanish, and `..` is the parent directory.

use vstd::prelude::*;

verus! {

/// One component of a path, as a mathematical value.
pub enum Component {
    RootDir,
    CurDir,
    ParentDir,
    Normal(Seq<char>),
}

/// One component of a path, as an executable value.
pub enum PathComponent {
    RootDir,
    CurDir,
    ParentDir,
    Normal(Vec<char>),
}

impl View for PathComponent {
    type V = Component;

    open spec fn view(&self) -> Component {
        match self {
            PathComponent::RootDir => Component::RootDir,
            PathComponent::CurDir => Component::CurDir,
            PathComponent::ParentDir => Component::ParentDir,
            PathComponent::Normal(name) => Component::Normal(name@),
        }
    }
}

/// The views of a sequence of components.
pub open spec fn views(v: Seq<PathComponent>) -> Seq<Component> {
    v.map_values(|c: PathComponent| c@)
}

/// The segments of `p` between `/` separators (there is always at least one).
pub open spec fn slash_segments(p: Seq<char>) -> Seq<Seq<char>>
    decreases p.len(),
{
    if p.len() == 0 {
        seq![Seq::<char>::empty()]
    } else {
        let prev = slash_segments(p.drop_last());
        if p.last() == '/' {
            prev.push(Seq::<char>::empty())
        } else {
            prev.drop_last().push(prev.last().push(p.last()))
        }
    }
}

/// What one segment contributes: nothing for an empty or `.` segment.
pub open spec fn segment_component(seg: Seq<char>) -> Seq<Component> {
    if seg.len() == 0 || seg == seq!['.'] {
        Seq::empty()
    } else if seg == seq!['.', '.'] {
        seq![Component::ParentDir]
    } else {
        seq![Component::Normal(seg)]
    }
}

pub open spec fn segments_components(segs: Seq<Seq<char>>) -> Seq<Component>
    decreases segs.len(),
{
    if segs.len() == 0 {
        Seq::empty()
    } else {
        segments_components(segs.drop_last()) + segment_component(segs.last())
    }
}

pub open spec fn has_root(p: Seq<char>) -> bool {
    p.len() > 0 && p[0] == '/'
}

pub open spec fn has_leading_cur_dir(p: Seq<char>) -> bool {
    !has_root(p) && p.len() > 0 && p[0] == '.' && (p.len() == 1 || p[1] == '/')
}

/// The components of the path `p`.
pub open spec fn path_components(p: Seq<char>) -> Seq<Component> {
    let head = if has_root(p) {
        seq![Component::RootDir]
    } else if has_leading_cur_dir(p) {
        seq![Component::CurDir]
    } else {
        Seq::empty()
    };
    head + segments_components(slash_segments(p))
}

/// `p` starts with `base`, component by component.
pub open spec fn path_starts_with(p: Seq<char>, base: Seq<char>) -> bool {
    path_components(base).is_prefix_of(path_components(p))
}

/// `a` and `b` name the same path, component by component.
pub open spec fn same_path(a: Seq<char>, b: Seq<char>) -> bool {
    path_components(a) == path_components(b)
}

/// The components of `p` that follow those of `base`.
pub open spec fn relative_components(p: Seq<char>, base: Seq<char>) -> Seq<Component> {
    path_components(p).skip(path_components(base).len() as int)
}

/// Some component of `comps` is a normal component named `name`.
pub open spec fn has_normal_named(comps: Seq<Component>, name: Seq<char>) -> bool {
    exists|i: int| 0 <= i < comps.len() && comps[i] == Component::Normal(name)
}

/// The last component's name when it is a normal component, else the empty name.
pub open spec fn final_name(comps: Seq<Component>) -> Seq<char> {
    if comps.len() > 0 && comps.last() is Normal {
        comps.last()->Normal_0
    } else {
        Seq::empty()
    }
}

proof fn lemma_slash_segments_nonempty(p: Seq<char>)
    ensures
        slash_segments(p).len() >= 1,
    decreases p.len(),
{
    if p.len() > 0 {
        lemma_slash_segments_nonempty(p.drop_last());
    }
}

/// Two character sequences are equal.
pub fn chars_equal(a: &Vec<char>, b: &Vec<char>) -> (r: bool)
    ensures
        r == (a@ == b@),
{
    if a.len() != b.len() {
        return false;
    }
    let mut i: usize = 0;
    while i < a.len()
        invariant
            a.len() == b.len(),
            i <= a.len(),
            forall|k: int| 0 <= k < i ==> a@[k] == b@[k],
        decreases a.len() - i,
    {
        if a[i] != b[i] {
            return false;
        }
        i = i + 1;
    }
    assert(a@ =~= b@);
    true
}

/// Two components are equal.
pub fn component_equal(a: &PathComponent, b: &PathComponent) -> (r: bool)
    ensures
        r == (a@ == b@),
{
    match (a, b) {
        (PathComponent::RootDir, PathComponent::RootDir) => true,
        (PathComponent::CurDir, PathComponent::CurDir) => true,
        (PathComponent::ParentDir, PathComponent::ParentDir) => true,
        (PathComponent::Normal(x), PathComponent::Normal(y)) => chars_equal(x, y),
        _ => false,
    }
}

fn segment_to_component(seg: Vec<char>, out: &mut Vec<PathComponent>)
    ensures
        views(final(out)@) == views(old(out)@) + segment_component(seg@),
{
    let ghost before = views(out@);
    if seg.len() == 0 || (seg.len() == 1 && seg[0] == '.') {
        assert(seg@.len() == 0 || seg@ =~= seq!['.']);
        assert(views(out@) =~= before + segment_component(seg@));
    } else if seg.len() == 2 && seg[0] == '.' && seg[1] == '.' {
        assert(seg@ =~= seq!['.', '.']);
        out.push(PathComponent::ParentDir);
        assert(views(out@) =~= before + segment_component(seg@));
    } else {
        assert(seg@ != seq!['.']);
        assert(seg@ != seq!['.', '.']);
        let ghost s = seg@;
        out.push(PathComponent::Normal(seg));
        assert(views(out@) =~= before + segment_component(s));
    }
}

/// The components of the path whose characters are `p`.
pub fn components_of_chars(p: &Vec<char>) -> (out: Vec<PathComponent>)
    ensures
        views(out@) == path_components(p@),
{
    let n = p.len();
    let mut out: Vec<PathComponent> = Vec::new();
    if n > 0 && p[0] == '/' {
        out.push(PathComponent::RootDir);
    } else if n > 0 && p[0] == '.' && (n == 1 || p[1] == '/') {
        out.push(PathComponent::CurDir);
    }
    let ghost head = views(out@);
    let mut cur: Vec<char> = Vec::new();
    let mut i: usize = 0;
    proof {
        assert(p@.take(0) =~= Seq::<char>::empty());
        assert(views(out@) =~= head + segments_components(slash_segments(p@.take(0)).drop_last()));
    }
    while i < n
        invariant
            n == p.len(),
            i <= n,
            head == (if has_root(p@) {
                seq![Component::RootDir]
            } else if has_leading_cur_dir(p@) {
                seq![Component::CurDir]
            } else {
                Seq::empty()
            }),
            slash_segments(p@.take(i as int)).len() >= 1,
            views(out@) == head + segments_components(slash_segments(p@.take(i as int)).drop_last()),
            cur@ == slash_segments(p@.take(i as int)).last(),
        decreases n - i,
    {
        let c = p[i];
        let ghost prev = slash_segments(p@.take(i as int));
        assert(p@.take(i + 1).drop_last() =~= p@.take(i as int));
        assert(p@.take(i + 1).last() == c);
        proof {
            lemma_slash_segments_nonempty(p@.take(i + 1));
        }
        if c == '/' {
            let seg = cur;
            cur = Vec::new();
            segment_to_component(seg, &mut out);
            let ghost next = slash_segments(p@.take(i + 1));
            assert(next == prev.push(Seq::<char>::empty()));
            assert(next.drop_last() =~= prev);
            assert(prev =~= prev.drop_last().push(prev.last()));
            assert(segments_components(prev) == segments_components(prev.drop_last()) + segment_component(prev.last()));
            assert(views(out@) =~= head + segments_components(next.drop_last()));
            assert(cur@ =~= next.last());
        } else {
            cur.push(c);
            let ghost next = slash_segments(p@.take(i + 1));
            assert(next == prev.drop_last().push(prev.last().push(c)));
            assert(next.drop_last() =~= prev.drop_last());
        }
        i = i + 1;
    }
    let ghost segs = slash_segments(p@.take(n as int));
    assert(p@.take(n as int) =~= p@);
    segment_to_component(cur, &mut out);
    assert(segs =~= segs.drop_last().push(segs.last()));
    assert(segments_components(segs) == segments_components(segs.drop_last()) + segment_component(segs.last()));
    assert(views(out@) =~= path_components(p@));
    out
}

/// The components of the path `p`.
pub fn components_of(p: &str) -> (out: Vec<PathComponent>)
    ensures
        views(out@) == path_components(p@),
{
    let chars = crate::text::chars_of(p);
    components_of_chars(&chars)
}

/// The components `base` come first in `p`, from position `offset` on.
pub fn starts_with_at(p: &Vec<PathComponent>, offset: usize, base: &Vec<PathComponent>) -> (r: bool)
    requires
        offset <= p.len(),
    ensures
        r == views(base@).is_prefix_of(views(p@).skip(offset as int)),
{
    let ghost rest = views(p@).skip(offset as int);
    if base.len() > p.len() - offset {
        return false;
    }
    let mut k: usize = 0;
    while k < base.len()
        invariant
            offset <= p.len(),
            base.len() <= p.len() - offset,
            k <= base.len(),
            rest == views(p@).skip(offset as int),
            forall|j: int| 0 <= j < k ==> views(base@)[j] == rest[j],
        decreases base.len() - k,
    {
        if !component_equal(&p[offset + k], &base[k]) {
            assert(views(base@)[k as int] != rest[k as int]);
            return false;
        }
        k = k + 1;
    }
    assert(views(base@) =~= rest.subrange(0, views(base@).len() as int));
    true
}

/// Two component sequences are equal.
pub fn components_equal(a: &Vec<PathComponent>, b: &Vec<PathComponent>) -> (r: bool)
    ensures
        r == (views(a@) == views(b@)),
{
    if a.len() != b.len() {
        assert(views(a@).len() != views(b@).len());
        return false;
    }
    let r = starts_with_at(a, 0, b);
    assert(views(a@).skip(0) =~= views(a@));
    if r {
        assert(views(b@) =~= views(a@));
    }
    r
}

/// Some component of `p` is a normal component named `name`.
pub fn contains_normal(p: &Vec<PathComponent>, name: &str) -> (r: bool)
    ensures
        r == has_normal_named(views(p@), name@),
{
    let target = crate::text::chars_of(name);
    let mut i: usize = 0;
    while i < p.len()
        invariant
            i <= p.len(),
            target@ == name@,
            forall|j: int| 0 <= j < i ==> views(p@)[j] != Component::Normal(name@),
        decreases p.len() - i,
    {
        match &p[i] {
            PathComponent::Normal(n) => {
                if chars_equal(n, &target) {
                    assert(views(p@)[i as int] == Component::Normal(name@));
                    return true;
                }
            },
            _ => {},
        }
        i = i + 1;
    }
    false
}

/// The component is a normal component named by one of `names`.
pub fn is_normal_named_any(c: &PathComponent, names: &Vec<&str>) -> (r: bool)
    ensures
        r == exists|j: int| 0 <= j < names.len() && c@ == Component::Normal(#[trigger] names@[j]@),
{
    match c {
        PathComponent::Normal(name) => {
            let mut j: usize = 0;
            while j < names.len()
                invariant
                    j <= names.len(),
                    c@ == Component::Normal(name@),
                    forall|k: int| 0 <= k < j ==> c@ != Component::Normal(#[trigger] names@[k]@),
                decreases names.len() - j,
            {
                let candidate = crate::text::chars_of(names[j]);
                if chars_equal(name, &candidate) {
                    assert(c@ == Component::Normal(names@[j as int]@));
                    return true;
                }
                j = j + 1;
            }
            false
        },
        _ => false,
    }
}

/// The components of some path in `patterns` come first in `p`, from position `offset` on.
pub fn starts_with_any_at(p: &Vec<PathComponent>, offset: usize, patterns: &Vec<&str>) -> (r: bool)
    requires
        offset <= p.len(),
    ensures
        r == exists|j: int|
            0 <= j < patterns.len() && path_components(#[trigger] patterns@[j]@).is_prefix_of(
                views(p@).skip(offset as int),
            ),
{
    let mut j: usize = 0;
    while j < patterns.len()
        invariant
            offset <= p.len(),
            j <= patterns.len(),
            forall|k: int|
                0 <= k < j ==> !path_components(#[trigger] patterns@[k]@).is_prefix_of(
                    views(p@).skip(offset as int),
                ),
        decreases patterns.len() - j,
    {
        let pattern = components_of(patterns[j]);
        if starts_with_at(p, offset, &pattern) {
            return true;
        }
        j = j + 1;
    }
    false
}

/// `base` and `name` with exactly one `/` between them.
pub open spec fn slash_joined(base: Seq<char>, name: Seq<char>) -> Seq<char> {
    base + seq!['/'] + name
}

/// `name` placed below `base`, as a path buffer joins them: an absolute
/// `name` replaces `base`; otherwise a `/` goes between them unless `base` is
/// empty or already ends with one.
pub open spec fn joined(base: Seq<char>, name: Seq<char>) -> Seq<char> {
    if name.len() > 0 && name[0] == '/' {
        name
    } else if base.len() == 0 || base.last() == '/' {
        base + name
    } else {
        slash_joined(base, name)
    }
}

/// `p` is a relative path that does not start with the current directory.
pub open spec fn plain_relative(p: Seq<char>) -> bool {
    p.len() > 0 && p[0] != '/' && !(p[0] == '.' && (p.len() == 1 || p[1] == '/'))
}

/// `name` placed below `base`, as a path buffer joins them.
pub fn join_path(base: &str, name: &str) -> (r: String)
    ensures
        r@ == joined(base@, name@),
{
    let b = crate::text::chars_of(base);
    let n = crate::text::chars_of(name);
    if n.len() > 0 && n[0] == '/' {
        return String::from_str(name);
    }
    let mut r = String::from_str(base);
    if !(b.len() == 0 || b[b.len() - 1] == '/') {
        r.append("/");
        proof {
            reveal_strlit("/");
        }
    }
    r.append(name);
    assert(r@ =~= joined(base@, name@));
    r
}

proof fn lemma_slash_segments_join(a: Seq<char>, b: Seq<char>)
    ensures
        slash_segments(slash_joined(a, b)) == slash_segments(a) + slash_segments(b),
    decreases b.len(),
{
    lemma_slash_segments_nonempty(b);
    if b.len() == 0 {
        assert(slash_joined(a, b).drop_last() =~= a);
        assert(slash_segments(a).push(Seq::<char>::empty()) =~= slash_segments(a) + seq![
            Seq::<char>::empty(),
        ]);
    } else {
        let b0 = b.drop_last();
        lemma_slash_segments_join(a, b0);
        lemma_slash_segments_nonempty(b0);
        assert(slash_joined(a, b).drop_last() =~= slash_joined(a, b0));
        assert(slash_joined(a, b).last() == b.last());
        let sa = slash_segments(a);
        let sb0 = slash_segments(b0);
        if b.last() == '/' {
            assert((sa + sb0).push(Seq::<char>::empty()) =~= sa + sb0.push(Seq::<char>::empty()));
        } else {
            let prev = sa + sb0;
            assert(prev.last() == sb0.last());
            assert(prev.drop_last().push(prev.last().push(b.last())) =~= sa + sb0.drop_last().push(
                sb0.last().push(b.last()),
            ));
        }
    }
}

proof fn lemma_segments_components_concat(x: Seq<Seq<char>>, y: Seq<Seq<char>>)
    ensures
        segments_components(x + y) == segments_components(x) + segments_components(y),
    decreases y.len(),
{
    if y.len() == 0 {
        assert(x + y =~= x);
        assert(segments_components(x) + Seq::<Component>::empty() =~= segments_components(x));
    } else {
        lemma_segments_components_concat(x, y.drop_last());
        assert((x + y).drop_last() =~= x + y.drop_last());
        assert((x + y).last() == y.last());
        assert(segments_components(x) + segments_components(y.drop_last()) + segment_component(
            y.last(),
        ) =~= segments_components(x) + (segments_components(y.drop_last()) + segment_component(
            y.last(),
        )));
    }
}

proof fn lemma_slash_joined_components(a: Seq<char>, b: Seq<char>)
    requires
        a.len() > 0,
        plain_relative(b),
    ensures
        path_components(slash_joined(a, b)) == path_components(a) + path_components(b),
{
    lemma_slash_segments_join(a, b);
    lemma_segments_components_concat(slash_segments(a), slash_segments(b));
    let j = slash_joined(a, b);
    assert(j[0] == a[0]);
    assert(a.len() >= 2 ==> j[1] == a[1]);
    assert(a.len() == 1 ==> j[1] == '/');
    assert(!has_root(b) && !has_leading_cur_dir(b));
    let head = if has_root(a) {
        seq![Component::RootDir]
    } else if has_leading_cur_dir(a) {
        seq![Component::CurDir]
    } else {
        Seq::<Component>::empty()
    };
    assert(path_components(b) =~= Seq::<Component>::empty() + segments_components(slash_segments(b)));
    assert(head + (segments_components(slash_segments(a)) + segments_components(slash_segments(b)))
        =~= (head + segments_components(slash_segments(a))) + segments_components(slash_segments(b)));
}

proof fn lemma_trailing_slash_components(a: Seq<char>)
    requires
        a.len() > 0,
    ensures
        path_components(a.push('/')) == path_components(a),
{
    let t = a.push('/');
    assert(t.drop_last() =~= a);
    assert(slash_segments(t) == slash_segments(a).push(Seq::<char>::empty()));
    assert(slash_segments(t).drop_last() =~= slash_segments(a));
    assert(segments_components(slash_segments(t)) =~= segments_components(slash_segments(a)));
    assert(t[0] == a[0]);
    assert(a.len() >= 2 ==> t[1] == a[1]);
    assert(a.len() == 1 ==> t[1] == '/');
}

/// The components of a plain relative path placed below a path are those of
/// the path, followed by those of the relative one.
pub proof fn lemma_joined_components(a: Seq<char>, b: Seq<char>)
    requires
        plain_relative(b),
    ensures
        path_components(joined(a, b)) == path_components(a) + path_components(b),
{
    if a.len() == 0 {
        let e = Seq::<char>::empty();
        assert(joined(a, b) =~= b);
        assert(slash_segments(a) =~= seq![e]);
        assert(seq![e].drop_last() =~= Seq::<Seq<char>>::empty());
        assert(seq![e].last() == e);
        assert(segment_component(e) =~= Seq::<Component>::empty());
        assert(segments_components(Seq::<Seq<char>>::empty()) =~= Seq::<Component>::empty());
        assert(path_components(a) =~= Seq::<Component>::empty());
        assert(path_components(b) =~= Seq::<Component>::empty() + path_components(b));
    } else if a.last() != '/' {
        lemma_slash_joined_components(a, b);
    } else {
        let a0 = a.drop_last();
        assert(a =~= a0.push('/'));
        assert(joined(a, b) =~= slash_joined(a0, b));
        if a0.len() > 0 {
            lemma_slash_joined_components(a0, b);
            lemma_trailing_slash_components(a0);
        } else {
            let e = Seq::<char>::empty();
            lemma_slash_segments_join(e, b);
            lemma_segments_components_concat(slash_segments(e), slash_segments(b));
            assert(slash_segments(e) =~= seq![e]);
            assert(seq![e].drop_last() =~= Seq::<Seq<char>>::empty());
            assert(seq![e].last() == e);
            assert(segment_component(e) =~= Seq::<Component>::empty());
            assert(segments_components(Seq::<Seq<char>>::empty()) =~= Seq::<Component>::empty());
            assert(segments_components(seq![e]) =~= Seq::<Component>::empty());
            assert(a =~= seq!['/']);
            assert(slash_joined(e, b)[0] == '/');
            lemma_slash_segments_join(e, e);
            lemma_segments_components_concat(slash_segments(e), slash_segments(e));
            assert(slash_joined(e, e) =~= a);
            assert(path_components(b) =~= Seq::<Component>::empty() + segments_components(slash_segments(b)));
            assert(path_components(a) =~= seq![Component::RootDir]);
            assert(path_components(joined(a, b)) =~= seq![Component::RootDir] + segments_components(slash_segments(b)));
        }
    }
}

proof fn lemma_first_segment(p: Seq<char>)
    ensures
        slash_segments(p).len() >= 1,
        slash_segments(p)[0].len() <= p.len(),
        slash_segments(p)[0] == p.take(slash_segments(p)[0].len() as int),
        slash_segments(p)[0].len() == p.len() || p[slash_segments(p)[0].len() as int] == '/',
        slash_segments(p).len() == 1 ==> slash_segments(p)[0] == p,
        slash_segments(p).len() >= 2 ==> slash_segments(p)[0].len() < p.len(),
    decreases p.len(),
{
    lemma_slash_segments_nonempty(p);
    if p.len() > 0 {
        let q = p.drop_last();
        lemma_first_segment(q);
        lemma_slash_segments_nonempty(q);
        let sq = slash_segments(q);
        let n = sq[0].len() as int;
        assert(q.take(n) =~= p.take(n));
        if n < q.len() {
            assert(q[n] == p[n]);
        }
        if p.last() == '/' {
            assert(slash_segments(p)[0] == sq[0]);
            if n == q.len() {
                assert(p[n] == '/');
            }
        } else if sq.len() >= 2 {
            assert(slash_segments(p)[0] == sq[0]);
        } else {
            assert(slash_segments(p)[0] == sq[0].push(p.last()));
            assert(sq[0].push(p.last()) =~= p);
            assert(p.take(p.len() as int) =~= p);
        }
    }
}

proof fn lemma_segments_components_first(segs: Seq<Seq<char>>)
    requires
        segs.len() >= 1,
    ensures
        segments_components(segs).len() >= segment_component(segs[0]).len(),
    decreases segs.len(),
{
    if segs.len() > 1 {
        lemma_segments_components_first(segs.drop_last());
        assert(segs.drop_last()[0] == segs[0]);
    } else {
        assert(segs.drop_last() =~= Seq::<Seq<char>>::empty());
        assert(segs.last() == segs[0]);
    }
}

/// A plain relative path has at least one component.
pub proof fn lemma_plain_relative_has_components(p: Seq<char>)
    requires
        plain_relative(p),
    ensures
        path_components(p).len() > 0,
{
    lemma_first_segment(p);
    let seg = slash_segments(p)[0];
    assert(seg.len() > 0);
    assert(seg[0] == p[0]);
    if seg == seq!['.'] {
        assert(seg.len() == 1);
        assert(false);
    }
    assert(segment_component(seg).len() == 1);
    lemma_segments_components_first(slash_segments(p));
}

proof fn lemma_segments_without_slash(p: Seq<char>)
    requires
        forall|i: int| 0 <= i < p.len() ==> p[i] != '/',
    ensures
        slash_segments(p) == seq![p],
    decreases p.len(),
{
    if p.len() > 0 {
        let q = p.drop_last();
        assert(forall|i: int| 0 <= i < q.len() ==> q[i] == p[i]);
        lemma_segments_without_slash(q);
        assert(p.last() == p[p.len() - 1]);
        assert(q.push(p.last()) =~= p);
        assert(seq![q].drop_last().push(q.push(p.last())) =~= seq![p]);
    } else {
        assert(p =~= Seq::<char>::empty());
    }
}

/// A name without `/` that is neither `.` nor `..` is a path of exactly one
/// normal component, itself.
pub proof fn lemma_single_name_components(name: Seq<char>)
    requires
        name.len() > 0,
        forall|i: int| 0 <= i < name.len() ==> name[i] != '/',
        name != seq!['.'],
        name != seq!['.', '.'],
    ensures
        path_components(name) == seq![Component::Normal(name)],
        plain_relative(name),
{
    lemma_segments_without_slash(name);
    let segs = seq![name];
    assert(segs.drop_last() =~= Seq::<Seq<char>>::empty());
    assert(segs.last() == name);
    if name[0] == '.' && name.len() == 1 {
        assert(name =~= seq!['.']);
    }
    if name.len() > 1 {
        assert(name[1] != '/');
    }
    assert(segment_component(name) == seq![Component::Normal(name)]);
    assert(segments_components(Seq::<Seq<char>>::empty()) =~= Seq::<Component>::empty());
    assert(segments_components(segs) =~= seq![Component::Normal(name)]);
    assert(!has_root(name));
    assert(!has_leading_cur_dir(name));
    assert(path_components(name) =~= seq![Component::Normal(name)]);
}

} // verus!
