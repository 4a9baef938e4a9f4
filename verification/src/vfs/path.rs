//! Unix path components, as `std::path::Path` reads them.
//!
//! A path is split at `/`. A leading `/` is the root component, written `/`; a
//! leading `.` followed by `/` (or a path that is just `.`) is the current-directory
//! component, written `.`; every other empty or `.` piece is dropped; all other
//! pieces (including `..`) are kept as they are. Two paths are equal, and one starts
//! with another, by their components. What is left of a path once a prefix of its
//! components is taken off keeps the text as written between its first and last
//! remaining components.

use vstd::prelude::*;

use crate::text::{chars_of, join, push_char};

verus! {

/// `piece` added to the finished components, unless it is empty or `.`.
pub open spec fn flush(done: Seq<Seq<char>>, piece: Seq<char>) -> Seq<Seq<char>> {
    if piece.len() == 0 || piece == seq!['.'] {
        done
    } else {
        done.push(piece)
    }
}

/// Scanning `s` from the left: the finished components and the piece being read.
pub open spec fn split_state(s: Seq<char>) -> (Seq<Seq<char>>, Seq<char>)
    decreases s.len(),
{
    if s.len() == 0 {
        (Seq::empty(), Seq::empty())
    } else {
        let prev = split_state(s.drop_last());
        if s.last() == '/' {
            (flush(prev.0, prev.1), Seq::empty())
        } else {
            (prev.0, prev.1.push(s.last()))
        }
    }
}

/// The pieces of `s` between separators, without empty and `.` pieces.
pub open spec fn body_components(s: Seq<char>) -> Seq<Seq<char>> {
    let st = split_state(s);
    flush(st.0, st.1)
}

/// Whether `s` begins with the current-directory component.
pub open spec fn leading_cur_dir(s: Seq<char>) -> bool {
    s == seq!['.'] || (s.len() >= 2 && s[0] == '.' && s[1] == '/')
}

/// The components of the path `s`.
pub open spec fn path_components(s: Seq<char>) -> Seq<Seq<char>> {
    if s.len() > 0 && s[0] == '/' {
        seq![seq!['/']] + body_components(s)
    } else if leading_cur_dir(s) {
        seq![seq!['.']] + body_components(s)
    } else {
        body_components(s)
    }
}

/// The components of the root path `/`.
pub open spec fn root_components() -> Seq<Seq<char>> {
    seq![seq!['/']]
}

/// The views of a sequence of character vectors.
pub open spec fn comps_view(v: Seq<Vec<char>>) -> Seq<Seq<char>> {
    Seq::new(v.len(), |i: int| v[i]@)
}

proof fn lemma_comps_view_push(v: Seq<Vec<char>>, x: Vec<char>)
    ensures
        comps_view(v.push(x)) == comps_view(v).push(x@),
{
    assert(comps_view(v.push(x)) =~= comps_view(v).push(x@));
}

proof fn lemma_join_push(s: Seq<Seq<char>>, x: Seq<char>, sep: Seq<char>)
    ensures
        join(s.push(x), sep) == if s.len() == 0 {
            x
        } else {
            join(s, sep) + sep + x
        },
{
    assert(s.push(x).drop_last() =~= s);
}

fn flush_into(done: &mut Vec<Vec<char>>, piece: Vec<char>)
    ensures
        comps_view(final(done)@) == flush(comps_view(old(done)@), piece@),
{
    if piece.len() == 0 {
        return;
    }
    if piece.len() == 1 && piece[0] == '.' {
        assert(piece@ =~= seq!['.']);
        return;
    }
    assert(piece@ != seq!['.']);
    proof {
        lemma_comps_view_push(done@, piece);
    }
    done.push(piece);
}

/// The components of the path `s`.
pub fn components(s: &str) -> (v: Vec<Vec<char>>)
    ensures
        comps_view(v@) == path_components(s@),
{
    let chars = chars_of(s);
    let n = chars.len();
    let mut done: Vec<Vec<char>> = Vec::new();
    let mut piece: Vec<char> = Vec::new();
    let mut i: usize = 0;
    assert(s@.subrange(0, 0) =~= Seq::<char>::empty());
    assert(comps_view(done@) =~= Seq::<Seq<char>>::empty());
    while i < n
        invariant
            chars@ == s@,
            n == chars@.len(),
            i <= n,
            comps_view(done@) == split_state(s@.subrange(0, i as int)).0,
            piece@ == split_state(s@.subrange(0, i as int)).1,
        decreases n - i,
    {
        let c = chars[i];
        let ghost sub = s@.subrange(0, i + 1);
        assert(sub.drop_last() =~= s@.subrange(0, i as int));
        assert(sub.last() == c);
        if c == '/' {
            let p = piece;
            flush_into(&mut done, p);
            piece = Vec::new();
            assert(piece@ =~= Seq::<char>::empty());
        } else {
            piece.push(c);
        }
        i = i + 1;
    }
    assert(s@.subrange(0, n as int) =~= s@);
    flush_into(&mut done, piece);
    let ghost body = done@;
    if n > 0 && chars[0] == '/' {
        let mut out: Vec<Vec<char>> = Vec::new();
        let mut root: Vec<char> = Vec::new();
        root.push('/');
        out.push(root);
        out.append(&mut done);
        assert(comps_view(out@) =~= seq![seq!['/']] + comps_view(body)) by {
            assert(root@ =~= seq!['/']);
        }
        return out;
    }
    let cur = n == 1 && chars[0] == '.' || n >= 2 && chars[0] == '.' && chars[1] == '/';
    assert(cur == leading_cur_dir(s@)) by {
        if n == 1 && chars[0] == '.' {
            assert(s@ =~= seq!['.']);
        }
    }
    if cur {
        let mut out: Vec<Vec<char>> = Vec::new();
        let mut dot: Vec<char> = Vec::new();
        dot.push('.');
        out.push(dot);
        out.append(&mut done);
        assert(comps_view(out@) =~= seq![seq!['.']] + comps_view(body)) by {
            assert(dot@ =~= seq!['.']);
        }
        return out;
    }
    done
}

/// Whether two character vectors hold the same characters.
pub fn chars_equal(a: &Vec<char>, b: &Vec<char>) -> (r: bool)
    ensures
        r == (a@ == b@),
{
    if a.len() != b.len() {
        return false;
    }
    let mut i: usize = 0;
    while i < a.len()
        invariant
            a@.len() == b@.len(),
            i <= a@.len(),
            forall|j: int| 0 <= j < i ==> a@[j] == b@[j],
        decreases a@.len() - i,
    {
        if a[i] != b[i] {
            return false;
        }
        i = i + 1;
    }
    assert(a@ =~= b@);
    true
}

/// Whether the components `a` are a prefix of the components `b`.
pub fn comps_prefix(a: &Vec<Vec<char>>, b: &Vec<Vec<char>>) -> (r: bool)
    ensures
        r == comps_view(a@).is_prefix_of(comps_view(b@)),
{
    if a.len() > b.len() {
        return false;
    }
    let mut i: usize = 0;
    while i < a.len()
        invariant
            a@.len() <= b@.len(),
            i <= a@.len(),
            forall|j: int| 0 <= j < i ==> a@[j]@ == b@[j]@,
        decreases a@.len() - i,
    {
        if !chars_equal(&a[i], &b[i]) {
            assert(comps_view(a@)[i as int] != comps_view(b@)[i as int]);
            return false;
        }
        i = i + 1;
    }
    assert(comps_view(b@).subrange(0, a@.len() as int) =~= comps_view(a@));
    true
}

/// Whether two component lists are equal.
pub fn comps_equal(a: &Vec<Vec<char>>, b: &Vec<Vec<char>>) -> (r: bool)
    ensures
        r == (comps_view(a@) == comps_view(b@)),
{
    if a.len() != b.len() {
        assert(comps_view(a@).len() != comps_view(b@).len());
        return false;
    }
    let r = comps_prefix(a, b);
    proof {
        if r {
            assert(comps_view(b@).subrange(0, a@.len() as int) =~= comps_view(b@));
        }
    }
    r
}

/// Whether the components are exactly the root.
pub fn is_root_components(c: &Vec<Vec<char>>) -> (r: bool)
    ensures
        r == (comps_view(c@) == root_components()),
{
    if c.len() != 1 {
        assert(comps_view(c@).len() != 1);
        return false;
    }
    let r = c[0].len() == 1 && c[0][0] == '/';
    proof {
        if r {
            assert(c@[0]@ =~= seq!['/']);
            assert(comps_view(c@) =~= root_components());
        } else {
            assert(comps_view(c@)[0] != seq!['/']);
        }
    }
    r
}


/// Scanning `s` from the left, keeping every piece between separators (empty and `.`
/// pieces too): the finished pieces and the piece being read.
pub open spec fn piece_state(s: Seq<char>) -> (Seq<Seq<char>>, Seq<char>)
    decreases s.len(),
{
    if s.len() == 0 {
        (Seq::empty(), Seq::empty())
    } else {
        let prev = piece_state(s.drop_last());
        if s.last() == '/' {
            (prev.0.push(prev.1), Seq::empty())
        } else {
            (prev.0, prev.1.push(s.last()))
        }
    }
}

/// Every piece of `s` between separators, as written.
pub open spec fn raw_pieces(s: Seq<char>) -> Seq<Seq<char>> {
    let st = piece_state(s);
    st.0.push(st.1)
}

/// A piece that is a component of its own: neither empty nor `.`.
pub open spec fn is_real_piece(x: Seq<char>) -> bool {
    x.len() > 0 && x != seq!['.']
}

/// `p` from its real piece number `j` on (counting from zero); empty when it has no
/// such piece.
pub open spec fn from_real(p: Seq<Seq<char>>, j: nat) -> Seq<Seq<char>>
    decreases p.len(),
{
    if p.len() == 0 {
        p
    } else if !is_real_piece(p[0]) {
        from_real(p.skip(1), j)
    } else if j == 0 {
        p
    } else {
        from_real(p.skip(1), (j - 1) as nat)
    }
}

/// `p` without the pieces after its last real one.
pub open spec fn up_to_last_real(p: Seq<Seq<char>>) -> Seq<Seq<char>>
    decreases p.len(),
{
    if p.len() == 0 {
        p
    } else if !is_real_piece(p.last()) {
        up_to_last_real(p.drop_last())
    } else {
        p
    }
}

/// Whether the path `s` begins with a root or a current-directory component.
pub open spec fn has_lead(s: Seq<char>) -> bool {
    (s.len() > 0 && s[0] == '/') || leading_cur_dir(s)
}

/// `s` after its leading root or current-directory component.
pub open spec fn body_text(s: Seq<char>) -> Seq<char> {
    if has_lead(s) {
        s.skip(1)
    } else {
        s
    }
}

/// What `Path::strip_prefix` leaves of the path `s` once its first `k` components
/// (at least one) are taken off: the text as written from the next component to the
/// last one, without the separators and `.` pieces before and after it.
pub open spec fn rest_after(s: Seq<char>, k: nat) -> Seq<char> {
    let j: nat = if has_lead(s) && k > 0 {
        (k - 1) as nat
    } else {
        k
    };
    join(up_to_last_real(from_real(raw_pieces(body_text(s)), j)), "/"@)
}

/// Every piece between separators of `chars` from position `start` on, as written.
fn pieces_from(chars: &Vec<char>, start: usize) -> (v: Vec<Vec<char>>)
    requires
        start <= chars@.len(),
    ensures
        comps_view(v@) == raw_pieces(chars@.skip(start as int)),
{
    let n = chars.len();
    let ghost t = chars@.skip(start as int);
    let mut done: Vec<Vec<char>> = Vec::new();
    let mut piece: Vec<char> = Vec::new();
    let mut i: usize = start;
    assert(t.subrange(0, 0) =~= Seq::<char>::empty());
    assert(comps_view(done@) =~= Seq::<Seq<char>>::empty());
    while i < n
        invariant
            start <= i <= n,
            n == chars@.len(),
            t == chars@.skip(start as int),
            comps_view(done@) == piece_state(t.subrange(0, i - start)).0,
            piece@ == piece_state(t.subrange(0, i - start)).1,
        decreases n - i,
    {
        let c = chars[i];
        let ghost sub = t.subrange(0, i - start + 1);
        assert(sub.drop_last() =~= t.subrange(0, i - start));
        assert(sub.last() == c);
        if c == '/' {
            proof {
                lemma_comps_view_push(done@, piece);
            }
            done.push(piece);
            piece = Vec::new();
            assert(piece@ =~= Seq::<char>::empty());
        } else {
            piece.push(c);
        }
        i = i + 1;
    }
    assert(t.subrange(0, n - start) =~= t);
    proof {
        lemma_comps_view_push(done@, piece);
    }
    done.push(piece);
    done
}

/// Where `from_real(p, j)` begins in `p`.
fn from_real_start(p: &Vec<Vec<char>>, j: usize) -> (a: usize)
    ensures
        a <= p@.len(),
        from_real(comps_view(p@), j as nat) == comps_view(p@).skip(a as int),
{
    let ghost all = comps_view(p@);
    let mut i: usize = 0;
    let mut rem: usize = j;
    assert(all.skip(0) =~= all);
    while i < p.len()
        invariant
            all == comps_view(p@),
            i <= p@.len(),
            from_real(all.skip(i as int), rem as nat) == from_real(all, j as nat),
        decreases p@.len() - i,
    {
        let x = &p[i];
        let is_real = x.len() > 0 && !(x.len() == 1 && x[0] == '.');
        assert(is_real == is_real_piece(all[i as int])) by {
            if x.len() == 1 && x[0] == '.' {
                assert(x@ =~= seq!['.']);
            }
        }
        assert(all.skip(i as int).skip(1) =~= all.skip(i + 1));
        assert(all.skip(i as int)[0] == all[i as int]);
        if is_real && rem == 0 {
            return i;
        }
        if is_real {
            rem = rem - 1;
        }
        i = i + 1;
    }
    assert(all.skip(i as int) =~= Seq::<Seq<char>>::empty());
    i
}

/// Where `up_to_last_real` of `p` from position `a` on ends in `p`.
fn last_real_end(p: &Vec<Vec<char>>, a: usize) -> (e: usize)
    requires
        a <= p@.len(),
    ensures
        a <= e <= p@.len(),
        up_to_last_real(comps_view(p@).skip(a as int)) == comps_view(p@).subrange(a as int, e as int),
{
    let ghost all = comps_view(p@);
    let mut e: usize = p.len();
    assert(all.subrange(a as int, e as int) =~= all.skip(a as int));
    while e > a
        invariant
            all == comps_view(p@),
            a <= e <= p@.len(),
            up_to_last_real(all.subrange(a as int, e as int)) == up_to_last_real(all.skip(a as int)),
        decreases e,
    {
        let x = &p[e - 1];
        let is_real = x.len() > 0 && !(x.len() == 1 && x[0] == '.');
        assert(is_real == is_real_piece(all[e - 1])) by {
            if x.len() == 1 && x[0] == '.' {
                assert(x@ =~= seq!['.']);
            }
        }
        assert(all.subrange(a as int, e as int).last() == all[e - 1]);
        if is_real {
            return e;
        }
        assert(all.subrange(a as int, e as int).drop_last() =~= all.subrange(a as int, e - 1));
        e = e - 1;
    }
    assert(all.subrange(a as int, e as int) =~= Seq::<Seq<char>>::empty());
    e
}

/// The pieces `p[a..e]` joined with `/`.
fn join_pieces(p: &Vec<Vec<char>>, a: usize, e: usize) -> (s: String)
    requires
        a <= e <= p@.len(),
    ensures
        s@ == join(comps_view(p@).subrange(a as int, e as int), "/"@),
{
    let ghost all = comps_view(p@);
    let mut s = String::new();
    let mut j: usize = a;
    assert(all.subrange(a as int, a as int) =~= Seq::<Seq<char>>::empty());
    while j < e
        invariant
            all == comps_view(p@),
            a <= j <= e <= p@.len(),
            s@ == join(all.subrange(a as int, j as int), "/"@),
        decreases e - j,
    {
        let ghost done = all.subrange(a as int, j as int);
        let x = &p[j];
        proof {
            lemma_join_push(done, x@, "/"@);
            assert(all.subrange(a as int, j + 1) =~= done.push(x@));
            reveal_strlit("/");
        }
        if j > a {
            push_char(&mut s, '/');
        }
        let ghost base = s@;
        assert(j > a ==> base =~= join(done, "/"@) + "/"@);
        assert(j == a ==> base =~= Seq::<char>::empty());
        let mut i: usize = 0;
        while i < x.len()
            invariant
                i <= x@.len(),
                s@ == base + x@.subrange(0, i as int),
            decreases x@.len() - i,
        {
            push_char(&mut s, x[i]);
            i = i + 1;
            assert(s@ =~= base + x@.subrange(0, i as int));
        }
        assert(x@.subrange(0, x@.len() as int) =~= x@);
        assert(j == a ==> s@ =~= x@);
        j = j + 1;
    }
    s
}

/// `Path::strip_prefix` on a path whose first `k` components (at least one) are the
/// prefix: what is left of `s` after them.
pub fn rest_of_path(s: &str, k: usize) -> (r: String)
    requires
        k >= 1,
    ensures
        r@ == rest_after(s@, k as nat),
{
    let chars = chars_of(s);
    let n = chars.len();
    let lead = (n > 0 && chars[0] == '/') || (n == 1 && chars[0] == '.') || (n >= 2 && chars[0] == '.'
        && chars[1] == '/');
    assert(lead == has_lead(s@)) by {
        if n == 1 && chars[0] == '.' {
            assert(s@ =~= seq!['.']);
        }
    }
    let start: usize = if lead {
        1
    } else {
        0
    };
    assert(chars@.skip(start as int) =~= body_text(s@));
    let pieces = pieces_from(&chars, start);
    let j: usize = if lead {
        k - 1
    } else {
        k
    };
    let a = from_real_start(&pieces, j);
    let e = last_real_end(&pieces, a);
    join_pieces(&pieces, a, e)
}

/// The real pieces of `p`, in order.
pub open spec fn reals(p: Seq<Seq<char>>) -> Seq<Seq<char>>
    decreases p.len(),
{
    if p.len() == 0 {
        p
    } else if is_real_piece(p[0]) {
        seq![p[0]] + reals(p.skip(1))
    } else {
        reals(p.skip(1))
    }
}

proof fn lemma_reals_concat(a: Seq<Seq<char>>, b: Seq<Seq<char>>)
    ensures
        reals(a + b) == reals(a) + reals(b),
    decreases a.len(),
{
    if a.len() == 0 {
        assert(a + b =~= b);
        assert(reals(a) + reals(b) =~= reals(b));
    } else {
        assert((a + b).skip(1) =~= a.skip(1) + b);
        assert((a + b)[0] == a[0]);
        lemma_reals_concat(a.skip(1), b);
        if is_real_piece(a[0]) {
            assert(seq![a[0]] + (reals(a.skip(1)) + reals(b)) =~= (seq![a[0]] + reals(a.skip(1))) + reals(b));
        }
    }
}

proof fn lemma_reals_push(a: Seq<Seq<char>>, x: Seq<char>)
    ensures
        reals(a.push(x)) == if is_real_piece(x) {
            reals(a).push(x)
        } else {
            reals(a)
        },
{
    lemma_reals_concat(a, seq![x]);
    assert(a + seq![x] =~= a.push(x));
    assert(seq![x].skip(1) =~= Seq::<Seq<char>>::empty());
    assert(reals(Seq::<Seq<char>>::empty()) == Seq::<Seq<char>>::empty());
    if is_real_piece(x) {
        assert(reals(seq![x]) =~= seq![x]);
        assert(reals(a) + seq![x] =~= reals(a).push(x));
    } else {
        assert(reals(seq![x]) =~= Seq::<Seq<char>>::empty());
        assert(reals(a) + Seq::<Seq<char>>::empty() =~= reals(a));
    }
}

proof fn lemma_split_state_reals(s: Seq<char>)
    ensures
        split_state(s).0 == reals(piece_state(s).0),
        split_state(s).1 == piece_state(s).1,
    decreases s.len(),
{
    if s.len() == 0 {
        assert(reals(Seq::<Seq<char>>::empty()) == Seq::<Seq<char>>::empty());
    } else {
        lemma_split_state_reals(s.drop_last());
        let prev = piece_state(s.drop_last());
        if s.last() == '/' {
            lemma_reals_push(prev.0, prev.1);
        }
    }
}

/// The components of the body of a path are its real pieces.
proof fn lemma_body_reals(s: Seq<char>)
    ensures
        body_components(s) == reals(raw_pieces(s)),
{
    lemma_split_state_reals(s);
    lemma_reals_push(piece_state(s).0, piece_state(s).1);
}

proof fn lemma_pieces_after_sep(a: Seq<char>, b: Seq<char>)
    ensures
        piece_state(a + seq!['/'] + b).0 == raw_pieces(a) + piece_state(b).0,
        piece_state(a + seq!['/'] + b).1 == piece_state(b).1,
    decreases b.len(),
{
    let t = a + seq!['/'] + b;
    if b.len() == 0 {
        assert(t.drop_last() =~= a);
        assert(t.last() == '/');
        assert(raw_pieces(a) + Seq::<Seq<char>>::empty() =~= raw_pieces(a));
    } else {
        assert(t.drop_last() =~= a + seq!['/'] + b.drop_last());
        assert(t.last() == b.last());
        lemma_pieces_after_sep(a, b.drop_last());
        let pb = piece_state(b.drop_last());
        if b.last() == '/' {
            assert((raw_pieces(a) + pb.0).push(pb.1) =~= raw_pieces(a) + pb.0.push(pb.1));
        }
    }
}

/// The pieces of `a`, a separator and `b` are those of `a` followed by those of `b`.
proof fn lemma_raw_pieces_sep(a: Seq<char>, b: Seq<char>)
    ensures
        raw_pieces(a + seq!['/'] + b) == raw_pieces(a) + raw_pieces(b),
{
    lemma_pieces_after_sep(a, b);
    let pb = piece_state(b);
    assert((raw_pieces(a) + pb.0).push(pb.1) =~= raw_pieces(a) + pb.0.push(pb.1));
}

/// Text without separators is a single piece.
proof fn lemma_raw_pieces_plain(x: Seq<char>)
    requires
        !x.contains('/'),
    ensures
        piece_state(x).0 == Seq::<Seq<char>>::empty(),
        piece_state(x).1 == x,
        raw_pieces(x) == seq![x],
    decreases x.len(),
{
    if x.len() == 0 {
        assert(piece_state(x).1 =~= x);
    } else {
        assert(!x.drop_last().contains('/')) by {
            if x.drop_last().contains('/') {
                let i = choose|i: int| 0 <= i < x.drop_last().len() && x.drop_last()[i] == '/';
                assert(x[i] == '/');
            }
        }
        lemma_raw_pieces_plain(x.drop_last());
        assert(x.last() != '/') by {
            assert(x[x.len() - 1] == x.last());
        }
        assert(x.drop_last().push(x.last()) =~= x);
    }
    assert(Seq::<Seq<char>>::empty().push(x) =~= seq![x]);
}

/// Splitting pieces joined with `/` gives them back.
proof fn lemma_raw_pieces_join(p: Seq<Seq<char>>)
    requires
        p.len() > 0,
        forall|i: int| 0 <= i < p.len() ==> !(#[trigger] p[i]).contains('/'),
    ensures
        raw_pieces(join(p, "/"@)) == p,
    decreases p.len(),
{
    reveal_strlit("/");
    if p.len() == 1 {
        lemma_raw_pieces_plain(p[0]);
        assert(seq![p[0]] =~= p);
    } else {
        let q = p.drop_last();
        assert(forall|i: int| 0 <= i < q.len() ==> q[i] == p[i]);
        lemma_raw_pieces_join(q);
        assert(join(p, "/"@) == join(q, "/"@) + "/"@ + p.last());
        assert("/"@ =~= seq!['/']);
        lemma_raw_pieces_sep(join(q, "/"@), p.last());
        assert(p.last() == p[p.len() - 1]);
        lemma_raw_pieces_plain(p.last());
        assert(q + seq![p.last()] =~= p);
    }
}

/// No piece holds a separator.
proof fn lemma_pieces_plain(s: Seq<char>)
    ensures
        forall|i: int| 0 <= i < raw_pieces(s).len() ==> !(#[trigger] raw_pieces(s)[i]).contains('/'),
        !piece_state(s).1.contains('/'),
        forall|i: int| 0 <= i < piece_state(s).0.len() ==> !(#[trigger] piece_state(s).0[i]).contains('/'),
    decreases s.len(),
{
    if s.len() == 0 {
        assert(raw_pieces(s) =~= seq![Seq::<char>::empty()]);
    } else {
        lemma_pieces_plain(s.drop_last());
        let prev = piece_state(s.drop_last());
        if s.last() != '/' {
            assert(!prev.1.push(s.last()).contains('/')) by {
                if prev.1.push(s.last()).contains('/') {
                    let i = choose|i: int| 0 <= i < prev.1.push(s.last()).len() && prev.1.push(s.last())[i] == '/';
                    if i < prev.1.len() {
                        assert(prev.1[i] == '/');
                    }
                }
            }
        } else {
            assert(!Seq::<char>::empty().contains('/'));
        }
    }
}

proof fn lemma_from_real(p: Seq<Seq<char>>, j: nat)
    ensures
        j <= reals(p).len() ==> reals(from_real(p, j)) == reals(p).skip(j as int),
        exists|a: int| 0 <= a <= p.len() && from_real(p, j) == p.skip(a),
        from_real(p, j).len() > 0 ==> is_real_piece(from_real(p, j)[0]),
    decreases p.len(),
{
    if p.len() == 0 {
        assert(p.skip(0) =~= p);
        assert(reals(p).skip(0) =~= reals(p));
    } else if !is_real_piece(p[0]) {
        lemma_from_real(p.skip(1), j);
        let a = choose|a: int| 0 <= a <= p.skip(1).len() && from_real(p.skip(1), j) == p.skip(1).skip(a);
        assert(p.skip(1).skip(a) =~= p.skip(a + 1));
    } else if j == 0 {
        assert(p.skip(0) =~= p);
        assert(reals(p).skip(0) =~= reals(p));
    } else {
        lemma_from_real(p.skip(1), (j - 1) as nat);
        let a = choose|a: int| 0 <= a <= p.skip(1).len() && from_real(p.skip(1), (j - 1) as nat) == p.skip(1).skip(a);
        assert(p.skip(1).skip(a) =~= p.skip(a + 1));
        assert(reals(p) == seq![p[0]] + reals(p.skip(1)));
        if j <= reals(p).len() {
            assert((seq![p[0]] + reals(p.skip(1))).skip(j as int) =~= reals(p.skip(1)).skip(j - 1));
        }
    }
}

proof fn lemma_up_to_last_real(q: Seq<Seq<char>>)
    ensures
        reals(up_to_last_real(q)) == reals(q),
        exists|e: int| 0 <= e <= q.len() && up_to_last_real(q) == q.subrange(0, e),
        q.len() > 0 && is_real_piece(q[0]) ==> up_to_last_real(q).len() > 0 && up_to_last_real(q)[0] == q[0],
    decreases q.len(),
{
    if q.len() == 0 {
        assert(q.subrange(0, 0) =~= q);
    } else if !is_real_piece(q.last()) {
        lemma_up_to_last_real(q.drop_last());
        lemma_reals_push(q.drop_last(), q.last());
        assert(q.drop_last().push(q.last()) =~= q);
        let e = choose|e: int| 0 <= e <= q.drop_last().len() && up_to_last_real(q.drop_last()) == q.drop_last().subrange(0, e);
        assert(q.drop_last().subrange(0, e) =~= q.subrange(0, e));
        if is_real_piece(q[0]) {
            assert(q.len() > 1) by {
                if q.len() == 1 {
                    assert(q.last() == q[0]);
                }
            }
            assert(q.drop_last()[0] == q[0]);
        }
    } else {
        assert(q.subrange(0, q.len() as int) =~= q);
    }
}

proof fn lemma_join_starts_with_first(q: Seq<Seq<char>>)
    requires
        q.len() > 0,
    ensures
        join(q, "/"@).len() >= q[0].len(),
        join(q, "/"@).subrange(0, q[0].len() as int) == q[0],
        q.len() > 1 ==> join(q, "/"@).len() > q[0].len() && join(q, "/"@)[q[0].len() as int] == '/',
    decreases q.len(),
{
    reveal_strlit("/");
    if q.len() == 1 {
        assert(q[0].subrange(0, q[0].len() as int) =~= q[0]);
    } else {
        let d = q.drop_last();
        lemma_join_starts_with_first(d);
        assert(d[0] == q[0]);
        let jd = join(d, "/"@);
        assert(join(q, "/"@) == jd + "/"@ + q.last());
        assert((jd + "/"@ + q.last()).subrange(0, q[0].len() as int) =~= jd.subrange(0, q[0].len() as int));
        if d.len() == 1 {
            assert(jd == q[0]);
            assert((jd + "/"@ + q.last())[q[0].len() as int] == '/');
        } else {
            assert((jd + "/"@ + q.last())[q[0].len() as int] == jd[q[0].len() as int]);
        }
    }
}

/// The real pieces of the body of `s` are the components after its leading one.
proof fn lemma_body_text_reals(s: Seq<char>)
    ensures
        body_components(s) == reals(raw_pieces(body_text(s))),
{
    lemma_body_reals(s);
    reveal_strlit("/");
    let e = Seq::<Seq<char>>::empty();
    assert(reals(e) == e);
    if s.len() > 0 && s[0] == '/' {
        assert(s =~= Seq::<char>::empty() + seq!['/'] + s.skip(1));
        lemma_raw_pieces_sep(Seq::<char>::empty(), s.skip(1));
        lemma_raw_pieces_plain(Seq::<char>::empty());
        lemma_reals_concat(seq![Seq::<char>::empty()], raw_pieces(s.skip(1)));
        assert(seq![Seq::<char>::empty()].skip(1) =~= e);
        assert(reals(seq![Seq::<char>::empty()]) =~= e);
        assert(e + reals(raw_pieces(s.skip(1))) =~= reals(raw_pieces(s.skip(1))));
    } else if s == seq!['.'] {
        assert(!s.contains('/')) by {
            if s.contains('/') {
                let i = choose|i: int| 0 <= i < s.len() && s[i] == '/';
                assert(s[0] == '.');
            }
        }
        lemma_raw_pieces_plain(s);
        assert(s.skip(1) =~= Seq::<char>::empty());
        lemma_raw_pieces_plain(Seq::<char>::empty());
        assert(seq![s].skip(1) =~= e);
        assert(reals(seq![s]) =~= e);
        assert(seq![Seq::<char>::empty()].skip(1) =~= e);
        assert(reals(seq![Seq::<char>::empty()]) =~= e);
    } else if leading_cur_dir(s) {
        let rest = s.skip(2);
        assert(s =~= seq!['.'] + seq!['/'] + rest);
        assert(s.skip(1) =~= Seq::<char>::empty() + seq!['/'] + rest);
        lemma_raw_pieces_sep(seq!['.'], rest);
        lemma_raw_pieces_sep(Seq::<char>::empty(), rest);
        assert(!seq!['.'].contains('/')) by {
            if seq!['.'].contains('/') {
                let i = choose|i: int| 0 <= i < seq!['.'].len() && seq!['.'][i] == '/';
            }
        }
        lemma_raw_pieces_plain(seq!['.']);
        lemma_raw_pieces_plain(Seq::<char>::empty());
        lemma_reals_concat(seq![seq!['.']], raw_pieces(rest));
        lemma_reals_concat(seq![Seq::<char>::empty()], raw_pieces(rest));
        assert(seq![seq!['.']].skip(1) =~= e);
        assert(reals(seq![seq!['.']]) =~= e);
        assert(seq![Seq::<char>::empty()].skip(1) =~= e);
        assert(reals(seq![Seq::<char>::empty()]) =~= e);
    }
}

/// What `rest_after` leaves of a path names exactly the components after the first
/// `k`: joining it under the prefix reaches the same place.
pub proof fn lemma_rest_components(s: Seq<char>, k: nat)
    requires
        1 <= k <= path_components(s).len(),
    ensures
        path_components(rest_after(s, k)) == path_components(s).skip(k as int),
{
    reveal_strlit("/");
    let p = raw_pieces(body_text(s));
    let j: nat = if has_lead(s) && k > 0 {
        (k - 1) as nat
    } else {
        k
    };
    lemma_body_text_reals(s);
    if has_lead(s) {
        assert(path_components(s).skip(k as int) =~= body_components(s).skip(j as int));
    }
    assert(path_components(s).skip(k as int) == reals(p).skip(j as int));
    lemma_from_real(p, j);
    let f = from_real(p, j);
    lemma_up_to_last_real(f);
    let q = up_to_last_real(f);
    let r = join(q, "/"@);
    assert(r == rest_after(s, k));
    assert(reals(q) == reals(p).skip(j as int));
    if q.len() == 0 {
        assert(r =~= Seq::<char>::empty());
        assert(split_state(r) == (Seq::<Seq<char>>::empty(), Seq::<char>::empty()));
        assert(path_components(r) =~= Seq::<Seq<char>>::empty());
        assert(reals(q) =~= Seq::<Seq<char>>::empty());
    } else {
        let a = choose|a: int| 0 <= a <= p.len() && f == p.skip(a);
        let e = choose|e: int| 0 <= e <= f.len() && q == f.subrange(0, e);
        lemma_pieces_plain(body_text(s));
        assert forall|i: int| 0 <= i < q.len() implies !(#[trigger] q[i]).contains('/') by {
            assert(q[i] == p[a + i]);
        }
        lemma_raw_pieces_join(q);
        lemma_body_reals(r);
        assert(is_real_piece(q[0]));
        lemma_join_starts_with_first(q);
        assert(r[0] == q[0][0]) by {
            assert(r.subrange(0, q[0].len() as int)[0] == r[0]);
        }
        assert(q[0][0] != '/') by {
            if q[0][0] == '/' {
                assert(q[0].contains('/'));
            }
        }
        assert(!leading_cur_dir(r)) by {
            if r == seq!['.'] {
                assert(q[0].len() <= 1);
                assert(q[0] =~= seq!['.']);
            } else if r.len() >= 2 && r[0] == '.' && r[1] == '/' {
                if q[0].len() >= 2 {
                    assert(r.subrange(0, q[0].len() as int)[1] == r[1]);
                    assert(q[0][1] == '/');
                    assert(q[0].contains('/'));
                } else {
                    assert(q[0] =~= seq!['.']);
                }
            }
        }
        assert(path_components(r) == body_components(r));
    }
}

} // verus!
