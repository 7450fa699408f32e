//! Session-scoped set of files the model has successfully read.
//!
//! Used by the edit tool to enforce read-before-edit at runtime. A session
//! without a tracker requires no prior read: nothing counts as read and no
//! read is required. Paths are byte strings, compared by their component
//! form.
use vstd::prelude::*;

verus! {

/// Strict lexicographic order of `a` and `b` from position `i` on.
pub open spec fn bytes_less_from(a: Seq<u8>, b: Seq<u8>, i: int) -> bool
    decreases a.len() - i,
{
    if i >= a.len() {
        i < b.len()
    } else if i >= b.len() {
        false
    } else if a[i] != b[i] {
        a[i] < b[i]
    } else {
        bytes_less_from(a, b, i + 1)
    }
}

/// Strict lexicographic order of byte strings.
pub open spec fn bytes_less(a: Seq<u8>, b: Seq<u8>) -> bool {
    bytes_less_from(a, b, 0)
}

/// The byte strings of `s` are strictly increasing: sorted, none twice.
pub open spec fn strictly_increasing(s: Seq<Seq<u8>>) -> bool {
    forall|i: int, j: int| 0 <= i < j < s.len() ==> bytes_less(#[trigger] s[i], #[trigger] s[j])
}

proof fn lemma_less_from_transitive(a: Seq<u8>, b: Seq<u8>, c: Seq<u8>, i: int)
    requires
        0 <= i,
        bytes_less_from(a, b, i),
        bytes_less_from(b, c, i),
    ensures
        bytes_less_from(a, c, i),
    decreases a.len() - i,
{
    if i < a.len() && i < b.len() && i < c.len() && a[i] == b[i] && b[i] == c[i] {
        lemma_less_from_transitive(a, b, c, i + 1);
    }
}

proof fn lemma_less_from_irreflexive(a: Seq<u8>, b: Seq<u8>, i: int)
    requires
        0 <= i,
        a == b,
    ensures
        !bytes_less_from(a, b, i),
    decreases a.len() - i,
{
    if i < a.len() {
        lemma_less_from_irreflexive(a, b, i + 1);
    }
}

proof fn lemma_less_from_total(a: Seq<u8>, b: Seq<u8>, i: int)
    requires
        0 <= i <= a.len(),
        i <= b.len(),
        a.subrange(0, i) == b.subrange(0, i),
        !bytes_less_from(a, b, i),
        !bytes_less_from(b, a, i),
    ensures
        a == b,
    decreases a.len() - i,
{
    if i == a.len() {
        assert(a =~= a.subrange(0, i));
        assert(b =~= b.subrange(0, i));
    } else {
        assert(a.subrange(0, i + 1) =~= a.subrange(0, i).push(a[i]));
        assert(b.subrange(0, i + 1) =~= b.subrange(0, i).push(b[i]));
        lemma_less_from_total(a, b, i + 1);
    }
}

/// Strict lexicographic order is transitive.
pub proof fn lemma_bytes_less_transitive(a: Seq<u8>, b: Seq<u8>, c: Seq<u8>)
    requires
        bytes_less(a, b),
        bytes_less(b, c),
    ensures
        bytes_less(a, c),
{
    lemma_less_from_transitive(a, b, c, 0);
}

/// Of two byte strings, exactly one is smaller, or they are equal.
pub proof fn lemma_bytes_less_trichotomy(a: Seq<u8>, b: Seq<u8>)
    ensures
        a == b ==> !bytes_less(a, b) && !bytes_less(b, a),
        a != b ==> bytes_less(a, b) || bytes_less(b, a),
        !(bytes_less(a, b) && bytes_less(b, a)),
{
    if a == b {
        lemma_less_from_irreflexive(a, b, 0);
        lemma_less_from_irreflexive(b, a, 0);
    } else if !bytes_less(a, b) && !bytes_less(b, a) {
        assert(a.subrange(0, 0) =~= b.subrange(0, 0));
        lemma_less_from_total(a, b, 0);
    }
    if bytes_less(a, b) && bytes_less(b, a) {
        lemma_less_from_transitive(a, b, a, 0);
        lemma_less_from_irreflexive(a, a, 0);
    }
}

/// The outcome of comparing two byte strings.
#[derive(Debug, Clone, Copy, PartialEq, Eq, Structural)]
pub enum ByteOrder {
    Less,
    Equal,
    Greater,
}

/// Compare two byte strings lexicographically.
pub fn compare_bytes(a: &[u8], b: &[u8]) -> (r: ByteOrder)
    ensures
        (r == ByteOrder::Less) == bytes_less(a@, b@),
        (r == ByteOrder::Equal) == (a@ == b@),
        (r == ByteOrder::Greater) == bytes_less(b@, a@),
{
    proof {
        lemma_bytes_less_trichotomy(a@, b@);
    }
    let mut i: usize = 0;
    while i < a.len() && i < b.len()
        invariant
            i <= a@.len(),
            i <= b@.len(),
            a@.subrange(0, i as int) == b@.subrange(0, i as int),
            bytes_less_from(a@, b@, 0) == bytes_less_from(a@, b@, i as int),
            bytes_less_from(b@, a@, 0) == bytes_less_from(b@, a@, i as int),
        decreases a.len() - i,
    {
        if a[i] < b[i] {
            return ByteOrder::Less;
        } else if a[i] > b[i] {
            return ByteOrder::Greater;
        }
        assert(a@.subrange(0, i + 1) =~= a@.subrange(0, i as int).push(a@[i as int]));
        assert(b@.subrange(0, i + 1) =~= b@.subrange(0, i as int).push(b@[i as int]));
        i = i + 1;
    }
    if a.len() < b.len() {
        ByteOrder::Less
    } else if b.len() < a.len() {
        ByteOrder::Greater
    } else {
        assert(a@ =~= a@.subrange(0, i as int));
        assert(b@ =~= b@.subrange(0, i as int));
        ByteOrder::Equal
    }
}

/// The pieces of `p` between separators `/`, empty ones included.
pub open spec fn split_slash(p: Seq<u8>) -> Seq<Seq<u8>>
    decreases p.len(),
{
    if p.len() == 0 {
        seq![Seq::empty()]
    } else {
        let rest = split_slash(p.drop_last());
        if p.last() == 47u8 {
            rest.push(Seq::empty())
        } else {
            rest.update(rest.len() - 1, rest.last().push(p.last()))
        }
    }
}

/// The components among pieces: non-empty pieces other than `.`, but for a
/// `.` that is the very first piece (a path that starts with `./`).
pub open spec fn kept_components(pieces: Seq<Seq<u8>>) -> Seq<Seq<u8>>
    decreases pieces.len(),
{
    if pieces.len() == 0 {
        Seq::empty()
    } else {
        let k = kept_components(pieces.drop_last());
        let s = pieces.last();
        if s.len() > 0 && (s != seq![46u8] || pieces.len() == 1) {
            k.push(s)
        } else {
            k
        }
    }
}

/// The path starts at the root.
pub open spec fn is_rooted(p: Seq<u8>) -> bool {
    p.len() > 0 && p[0] == 47u8
}

/// The byte string `s` with every NUL byte written as the pair 0, 1.
pub open spec fn escape_nul(s: Seq<u8>) -> Seq<u8>
    decreases s.len(),
{
    if s.len() == 0 {
        Seq::empty()
    } else {
        escape_nul(s.drop_last()) + (if s.last() == 0u8 {
            seq![0u8, 1u8]
        } else {
            seq![s.last()]
        })
    }
}

/// The token of one component: `.` (the current directory) as 2, `..` (the
/// parent directory) as 3, and a name as 4, its escaped bytes, then 0, 0.
pub open spec fn component_token(c: Seq<u8>) -> Seq<u8> {
    if c == seq![46u8] {
        seq![2u8]
    } else if c == seq![46u8, 46u8] {
        seq![3u8]
    } else {
        seq![4u8] + escape_nul(c) + seq![0u8, 0u8]
    }
}

/// The tokens of a list of components, one after the other.
pub open spec fn component_tokens(c: Seq<Seq<u8>>) -> Seq<u8>
    decreases c.len(),
{
    if c.len() == 0 {
        Seq::empty()
    } else {
        component_tokens(c.drop_last()) + component_token(c.last())
    }
}

/// The key of a path: 1 for the root, then the tokens of its components.
/// The tokens are prefix-free (a name's escaped bytes never hold 0, 0), so
/// distinct component lists give distinct keys; and keys in byte order
/// follow the order of component lists: the root first, then the current
/// directory, then the parent directory, then names in byte order.
pub open spec fn component_key(p: Seq<u8>) -> Seq<u8> {
    (if is_rooted(p) {
        seq![1u8]
    } else {
        Seq::<u8>::empty()
    }) + component_tokens(kept_components(split_slash(p)))
}

proof fn lemma_split_slash_nonempty(p: Seq<u8>)
    ensures
        split_slash(p).len() >= 1,
    decreases p.len(),
{
    if p.len() > 0 {
        lemma_split_slash_nonempty(p.drop_last());
    }
}

/// The escape of one byte: NUL as 0, 1, any other byte as itself.
pub open spec fn escape_byte(b: u8) -> Seq<u8> {
    if b == 0u8 {
        seq![0u8, 1u8]
    } else {
        seq![b]
    }
}

proof fn lemma_escape_first(s: Seq<u8>)
    requires
        s.len() > 0,
    ensures
        escape_nul(s) == escape_byte(s[0]) + escape_nul(s.drop_first()),
    decreases s.len(),
{
    if s.len() == 1 {
        assert(s.drop_last() =~= Seq::<u8>::empty());
        assert(s.drop_first() =~= Seq::<u8>::empty());
        assert(escape_nul(s) =~= escape_byte(s[0]) + escape_nul(s.drop_first()));
    } else {
        let d = s.drop_last();
        lemma_escape_first(d);
        assert(s.drop_first().drop_last() =~= d.drop_first());
        assert(s.drop_first().last() == s.last());
        assert(escape_nul(s.drop_first()) == escape_nul(d.drop_first()) + escape_byte(s.last()));
        assert(escape_nul(s) =~= escape_byte(s[0]) + escape_nul(s.drop_first()));
    }
}

proof fn lemma_escape_cancel(a: Seq<u8>, b: Seq<u8>, x: Seq<u8>, y: Seq<u8>)
    requires
        escape_nul(a) + seq![0u8, 0u8] + x == escape_nul(b) + seq![0u8, 0u8] + y,
    ensures
        a == b,
        x == y,
    decreases a.len(),
{
    let l = escape_nul(a) + seq![0u8, 0u8] + x;
    let r = escape_nul(b) + seq![0u8, 0u8] + y;
    if a.len() == 0 {
        assert(escape_nul(a) =~= Seq::<u8>::empty());
        assert(l =~= seq![0u8, 0u8] + x);
        if b.len() > 0 {
            lemma_escape_first(b);
            assert(r =~= escape_byte(b[0]) + (escape_nul(b.drop_first()) + seq![0u8, 0u8] + y));
            if b[0] == 0u8 {
                assert(l[1] == 0u8 && r[1] == 1u8);
            } else {
                assert(l[0] == 0u8 && r[0] == b[0]);
            }
        } else {
            assert(escape_nul(b) =~= Seq::<u8>::empty());
            assert(r =~= seq![0u8, 0u8] + y);
            assert(x =~= l.subrange(2, l.len() as int));
            assert(y =~= r.subrange(2, r.len() as int));
        }
    } else if b.len() == 0 {
        lemma_escape_cancel(b, a, y, x);
    } else {
        lemma_escape_first(a);
        lemma_escape_first(b);
        let ra = escape_nul(a.drop_first()) + seq![0u8, 0u8] + x;
        let rb = escape_nul(b.drop_first()) + seq![0u8, 0u8] + y;
        assert(l =~= escape_byte(a[0]) + ra);
        assert(r =~= escape_byte(b[0]) + rb);
        if a[0] != b[0] {
            if a[0] == 0u8 {
                assert(l[0] == 0u8 && r[0] == b[0]);
            } else if b[0] == 0u8 {
                assert(r[0] == 0u8 && l[0] == a[0]);
            } else {
                assert(l[0] == a[0] && r[0] == b[0]);
            }
        } else {
            let n = escape_byte(a[0]).len() as int;
            assert(ra =~= l.subrange(n, l.len() as int));
            assert(rb =~= r.subrange(n, r.len() as int));
            lemma_escape_cancel(a.drop_first(), b.drop_first(), x, y);
            assert(a =~= seq![a[0]] + a.drop_first());
            assert(b =~= seq![b[0]] + b.drop_first());
        }
    }
}

proof fn lemma_token_start(c: Seq<u8>)
    ensures
        component_token(c).len() >= 1,
        component_token(c)[0] == (if c == seq![46u8] {
            2u8
        } else if c == seq![46u8, 46u8] {
            3u8
        } else {
            4u8
        }),
{
}

proof fn lemma_token_cancel(a: Seq<u8>, b: Seq<u8>, x: Seq<u8>, y: Seq<u8>)
    requires
        component_token(a) + x == component_token(b) + y,
    ensures
        a == b,
        x == y,
{
    let s = component_token(a) + x;
    lemma_token_start(a);
    lemma_token_start(b);
    assert(s[0] == component_token(a)[0]);
    assert((component_token(b) + y)[0] == component_token(b)[0]);
    let da = a == seq![46u8];
    let dda = a == seq![46u8, 46u8];
    if da || dda {
        assert(component_token(a).len() == 1);
        assert(component_token(b).len() == 1);
        assert(x =~= s.drop_first());
        assert(y =~= (component_token(b) + y).drop_first());
    } else {
        assert(s.drop_first() =~= escape_nul(a) + seq![0u8, 0u8] + x);
        assert((component_token(b) + y).drop_first() =~= escape_nul(b) + seq![0u8, 0u8] + y);
        lemma_escape_cancel(a, b, x, y);
    }
}

proof fn lemma_tokens_first(c: Seq<Seq<u8>>)
    requires
        c.len() > 0,
    ensures
        component_tokens(c) == component_token(c[0]) + component_tokens(c.drop_first()),
    decreases c.len(),
{
    if c.len() == 1 {
        assert(c.drop_last() =~= Seq::<Seq<u8>>::empty());
        assert(c.drop_first() =~= Seq::<Seq<u8>>::empty());
        assert(component_tokens(c) =~= component_token(c[0]) + component_tokens(c.drop_first()));
    } else {
        let d = c.drop_last();
        lemma_tokens_first(d);
        assert(c.drop_first().drop_last() =~= d.drop_first());
        assert(c.drop_first().last() == c.last());
        assert(component_tokens(c.drop_first()) == component_tokens(d.drop_first()) + component_token(
            c.last(),
        ));
        assert(component_tokens(c) =~= component_token(c[0]) + component_tokens(c.drop_first()));
    }
}

proof fn lemma_tokens_injective(c1: Seq<Seq<u8>>, c2: Seq<Seq<u8>>)
    requires
        component_tokens(c1) == component_tokens(c2),
    ensures
        c1 == c2,
    decreases c1.len(),
{
    if c1.len() == 0 {
        if c2.len() > 0 {
            lemma_tokens_first(c2);
            lemma_token_start(c2[0]);
        }
        assert(c1 =~= c2);
    } else if c2.len() == 0 {
        lemma_tokens_first(c1);
        lemma_token_start(c1[0]);
    } else {
        lemma_tokens_first(c1);
        lemma_tokens_first(c2);
        lemma_token_cancel(c1[0], c2[0], component_tokens(c1.drop_first()), component_tokens(c2.drop_first()));
        lemma_tokens_injective(c1.drop_first(), c2.drop_first());
        assert(c1 =~= seq![c1[0]] + c1.drop_first());
        assert(c2 =~= seq![c2[0]] + c2.drop_first());
    }
}

/// Two paths have the same key exactly when both or neither start at the
/// root and they have the same components: every byte of every component
/// goes into the key.
pub proof fn law_same_key_same_components(p: Seq<u8>, q: Seq<u8>)
    ensures
        component_key(p) == component_key(q) <==> (is_rooted(p) == is_rooted(q) && kept_components(
            split_slash(p),
        ) == kept_components(split_slash(q))),
{
    let cp = kept_components(split_slash(p));
    let cq = kept_components(split_slash(q));
    let tp = component_tokens(cp);
    let tq = component_tokens(cq);
    if component_key(p) == component_key(q) {
        let k = component_key(p);
        if is_rooted(p) != is_rooted(q) {
            // The tokens of components never start with the root's 1.
            if is_rooted(p) {
                assert(k == seq![1u8] + tp);
                assert(k == tq);
                if cq.len() > 0 {
                    lemma_tokens_first(cq);
                    lemma_token_start(cq[0]);
                    assert(tq[0] == component_token(cq[0])[0]);
                } else {
                    assert(tq =~= Seq::<u8>::empty());
                }
                assert(k[0] == 1u8);
            } else {
                assert(k == seq![1u8] + tq);
                assert(k == tp);
                if cp.len() > 0 {
                    lemma_tokens_first(cp);
                    lemma_token_start(cp[0]);
                    assert(tp[0] == component_token(cp[0])[0]);
                } else {
                    assert(tp =~= Seq::<u8>::empty());
                }
                assert(k[0] == 1u8);
            }
        } else {
            if is_rooted(p) {
                assert(tp =~= k.drop_first());
                assert(tq =~= k.drop_first());
            } else {
                assert(tp =~= k);
                assert(tq =~= k);
            }
            lemma_tokens_injective(cp, cq);
        }
    }
}

/// Recording a read of `p` makes a path `q` count as read only when `q` was
/// read before, or has the components of `p` and starts at the root exactly
/// when `p` does.
pub proof fn law_record_marks_only_same_components(
    paths_read: Option<Set<Seq<u8>>>,
    p: Seq<u8>,
    q: Seq<u8>,
)
    requires
        has_been_read(read_recorded(paths_read, component_key(p)), component_key(q)),
    ensures
        has_been_read(paths_read, component_key(q)) || (is_rooted(p) == is_rooted(q)
            && kept_components(split_slash(p)) == kept_components(split_slash(q))),
{
    law_same_key_same_components(p, q);
}

/// A trailing separator does not change the key of a non-empty path.
pub proof fn law_trailing_separator_ignored(p: Seq<u8>)
    requires
        p.len() > 0,
    ensures
        component_key(p.push(47u8)) == component_key(p),
{
    let q = p.push(47u8);
    assert(q.drop_last() =~= p);
    assert(split_slash(q) == split_slash(p).push(Seq::empty()));
    assert(split_slash(q).drop_last() =~= split_slash(p));
    assert(kept_components(split_slash(q)) == kept_components(split_slash(p)));
    assert(q[0] == p[0]);
}

/// Append the token of the component `c` to `out`.
fn push_token(out: &mut Vec<u8>, c: &Vec<u8>)
    ensures
        final(out)@ == old(out)@ + component_token(c@),
{
    let ghost start = out@;
    if c.len() == 1 && c[0] == 46u8 {
        assert(c@ =~= seq![46u8]);
        out.push(2u8);
        assert(out@ =~= start + seq![2u8]);
    } else if c.len() == 2 && c[0] == 46u8 && c[1] == 46u8 {
        assert(c@ =~= seq![46u8, 46u8]);
        assert(c@ != seq![46u8]);
        out.push(3u8);
        assert(out@ =~= start + seq![3u8]);
    } else {
        assert(c@ != seq![46u8]) by {
            if c@ == seq![46u8] {
                assert(c@.len() == 1 && c@[0] == 46u8);
            }
        }
        assert(c@ != seq![46u8, 46u8]) by {
            if c@ == seq![46u8, 46u8] {
                assert(c@.len() == 2 && c@[0] == 46u8 && c@[1] == 46u8);
            }
        }
        out.push(4u8);
        let mut j: usize = 0;
        assert(c@.take(0) =~= Seq::<u8>::empty());
        while j < c.len()
            invariant
                j <= c@.len(),
                out@ == start + seq![4u8] + escape_nul(c@.take(j as int)),
            decreases c.len() - j,
        {
            assert(c@.take(j + 1).drop_last() =~= c@.take(j as int));
            if c[j] == 0u8 {
                out.push(0u8);
                out.push(1u8);
            } else {
                out.push(c[j]);
            }
            assert(out@ =~= start + seq![4u8] + escape_nul(c@.take(j + 1)));
            j = j + 1;
        }
        assert(c@.take(j as int) =~= c@);
        out.push(0u8);
        out.push(0u8);
        assert(out@ =~= start + component_token(c@));
    }
}

/// Append the token of the piece `piece` to the key `out` built from the
/// pieces `done` so far, when the piece is a component.
fn push_piece(
    out: &mut Vec<u8>,
    piece: &Vec<u8>,
    first_piece: bool,
    Ghost(prefix): Ghost<Seq<u8>>,
    Ghost(done): Ghost<Seq<Seq<u8>>>,
)
    requires
        old(out)@ == prefix + component_tokens(kept_components(done)),
        first_piece == (done.len() == 0),
    ensures
        final(out)@ == prefix + component_tokens(kept_components(done.push(piece@))),
{
    let ghost v = piece@;
    proof {
        assert(done.push(v).drop_last() =~= done);
        assert((v != seq![46u8]) == !(v.len() == 1 && v[0] == 46u8)) by {
            if v.len() == 1 && v[0] == 46u8 {
                assert(v =~= seq![46u8]);
            }
        }
        let k = kept_components(done);
        assert(k.push(v).drop_last() =~= k);
    }
    let keep = piece.len() > 0 && (!(piece.len() == 1 && piece[0] == 46u8) || first_piece);
    if keep {
        push_token(out, piece);
        assert(out@ =~= prefix + component_tokens(kept_components(done.push(v))));
    }
}

/// The key of the path `p`.
pub fn path_key(p: &[u8]) -> (r: Vec<u8>)
    ensures
        r@ == component_key(p@),
{
    let rooted = p.len() > 0 && p[0] == 47u8;
    let mut out: Vec<u8> = Vec::new();
    if rooted {
        out.push(1u8);
    }
    let ghost prefix = out@;
    let mut seg: Vec<u8> = Vec::new();
    let mut first_piece = true;
    let ghost mut done: Seq<Seq<u8>> = Seq::empty();
    let mut i: usize = 0;
    proof {
        assert(p@.take(0) =~= Seq::<u8>::empty());
    }
    while i < p.len()
        invariant
            i <= p@.len(),
            split_slash(p@.take(i as int)) == done.push(seg@),
            first_piece == (done.len() == 0),
            out@ == prefix + component_tokens(kept_components(done)),
        decreases p.len() - i,
    {
        proof {
            assert(p@.take(i + 1).drop_last() =~= p@.take(i as int));
            lemma_split_slash_nonempty(p@.take(i as int));
        }
        if p[i] == 47u8 {
            push_piece(&mut out, &seg, first_piece, Ghost(prefix), Ghost(done));
            proof {
                done = done.push(seg@);
            }
            seg = Vec::new();
            first_piece = false;
        } else {
            seg.push(p[i]);
            proof {
                assert(split_slash(p@.take(i + 1)) =~= done.push(seg@));
            }
        }
        i = i + 1;
    }
    proof {
        assert(p@.take(i as int) =~= p@);
    }
    push_piece(&mut out, &seg, first_piece, Ghost(prefix), Ghost(done));
    out
}

/// Paths successfully returned by a read tool in this session: for each
/// set of components, the first spelling recorded, in increasing key order.
#[derive(Debug, PartialEq, Eq)]
pub struct FileReadTracker {
    keys: Vec<Vec<u8>>,
    paths: Vec<Vec<u8>>,
}

/// The byte strings of a list of byte vectors.
pub open spec fn path_views(v: Seq<Vec<u8>>) -> Seq<Seq<u8>> {
    v.map_values(|p: Vec<u8>| p@)
}

/// The keys of a list of paths.
pub open spec fn keys_of(s: Seq<Seq<u8>>) -> Seq<Seq<u8>> {
    s.map_values(|p: Seq<u8>| component_key(p))
}

/// The keys of the paths recorded in `s`.
pub open spec fn recorded_keys(s: Seq<Seq<u8>>) -> Set<Seq<u8>> {
    keys_of(s).to_set()
}

/// How many paths of `s` have a key below `k`.
pub open spec fn count_keys_below(s: Seq<Seq<u8>>, k: Seq<u8>) -> nat
    decreases s.len(),
{
    if s.len() == 0 {
        0
    } else {
        count_keys_below(s.drop_last(), k) + (if bytes_less(component_key(s.last()), k) {
            1nat
        } else {
            0nat
        })
    }
}

/// The recorded paths `s` after a read of `p`: unchanged when a path with
/// the same components is recorded, else `p` in its place by key.
pub open spec fn with_read(s: Seq<Seq<u8>>, p: Seq<u8>) -> Seq<Seq<u8>> {
    if recorded_keys(s).contains(component_key(p)) {
        s
    } else {
        s.insert(count_keys_below(s, component_key(p)) as int, p)
    }
}

proof fn lemma_count_keys_below(s: Seq<Seq<u8>>, k: Seq<u8>, i: int)
    requires
        0 <= i <= s.len(),
        forall|j: int| 0 <= j < i ==> bytes_less(#[trigger] keys_of(s)[j], k),
        forall|j: int| i <= j < s.len() ==> !bytes_less(#[trigger] keys_of(s)[j], k),
    ensures
        count_keys_below(s, k) == i,
    decreases s.len(),
{
    if s.len() > 0 {
        let d = s.drop_last();
        assert(keys_of(d) =~= keys_of(s).drop_last());
        assert(keys_of(s)[s.len() - 1] == component_key(s.last()));
        if i == s.len() {
            assert forall|j: int| 0 <= j < i - 1 implies bytes_less(#[trigger] keys_of(d)[j], k) by {
                assert(keys_of(d)[j] == keys_of(s)[j]);
            }
            lemma_count_keys_below(d, k, i - 1);
        } else {
            assert forall|j: int| 0 <= j < i implies bytes_less(#[trigger] keys_of(d)[j], k) by {
                assert(keys_of(d)[j] == keys_of(s)[j]);
            }
            assert forall|j: int| i <= j < d.len() implies !bytes_less(#[trigger] keys_of(d)[j], k) by {
                assert(keys_of(d)[j] == keys_of(s)[j]);
            }
            lemma_count_keys_below(d, k, i);
        }
    }
}

impl FileReadTracker {
    #[verifier::type_invariant]
    spec fn well_formed(self) -> bool {
        &&& self.keys@.len() == self.paths@.len()
        &&& forall|i: int| 0 <= i < self.keys@.len() ==> (#[trigger] self.keys@[i])@ == component_key(self.paths@[i]@)
        &&& strictly_increasing(path_views(self.keys@))
    }

    proof fn lemma_keys(self)
        requires
            self.well_formed(),
        ensures
            path_views(self.keys@) == keys_of(path_views(self.paths@)),
    {
        assert(path_views(self.keys@) =~= keys_of(path_views(self.paths@))) by {
            assert forall|i: int| 0 <= i < self.keys@.len() implies path_views(self.keys@)[i]
                == keys_of(path_views(self.paths@))[i] by {
                assert((self.keys@[i])@ == component_key(self.paths@[i]@));
            }
        }
    }

    /// An empty tracker.
    pub fn new() -> (r: Self)
        ensures
            r@ == Seq::<Seq<u8>>::empty(),
    {
        let r = FileReadTracker { keys: Vec::new(), paths: Vec::new() };
        assert(path_views(r.paths@) =~= Seq::<Seq<u8>>::empty());
        r
    }

    /// The recorded paths, in increasing key order: no two with the same
    /// components.
    pub fn paths(&self) -> (r: &[Vec<u8>])
        ensures
            path_views(r@) == self@,
            strictly_increasing(keys_of(self@)),
    {
        proof {
            use_type_invariant(self);
            self.lemma_keys();
        }
        self.paths.as_slice()
    }

    /// Whether a path with the same components as `path` has been recorded.
    pub fn contains(&self, path: &[u8]) -> (r: bool)
        ensures
            r == recorded_keys(self@).contains(component_key(path@)),
    {
        proof {
            use_type_invariant(self);
            self.lemma_keys();
        }
        let key = path_key(path);
        let ghost s = path_views(self.keys@);
        let mut i: usize = 0;
        while i < self.keys.len()
            invariant
                i <= self.keys@.len(),
                s == path_views(self.keys@),
                s == keys_of(self@),
                key@ == component_key(path@),
                forall|k: int| 0 <= k < i ==> s[k] != key@,
            decreases self.keys.len() - i,
        {
            if compare_bytes(self.keys[i].as_slice(), key.as_slice()) == ByteOrder::Equal {
                assert(s[i as int] == key@);
                assert(s.contains(key@));
                return true;
            }
            i = i + 1;
        }
        assert(!s.contains(key@));
        false
    }

    /// Record `path`, unless a path with the same components is recorded;
    /// whether it was not.
    pub fn insert(&mut self, path: Vec<u8>) -> (r: bool)
        ensures
            final(self)@ == with_read(old(self)@, path@),
            recorded_keys(final(self)@) == recorded_keys(old(self)@).insert(component_key(path@)),
            r == !recorded_keys(old(self)@).contains(component_key(path@)),
    {
        proof {
            use_type_invariant(&*self);
            self.lemma_keys();
        }
        let ghost old_paths = path_views(self.paths@);
        let key = path_key(path.as_slice());
        let mut taken = FileReadTracker::new();
        std::mem::swap(&mut taken, self);
        proof {
            use_type_invariant(&taken);
        }
        let FileReadTracker { keys: mut v, paths: mut w } = taken;
        let ghost s = path_views(v@);
        let ghost p = key@;
        proof {
            assert(s == keys_of(old_paths));
        }
        let mut i: usize = 0;
        while i < v.len()
            invariant
                i <= v@.len(),
                s == path_views(v@),
                strictly_increasing(s),
                p == key@,
                forall|k: int| 0 <= k < i ==> bytes_less(#[trigger] s[k], p),
            ensures
                i <= v@.len(),
                forall|k: int| 0 <= k < i ==> bytes_less(#[trigger] s[k], p),
                i < v@.len() ==> !bytes_less(s[i as int], p),
            decreases v.len() - i,
        {
            if compare_bytes(v[i].as_slice(), key.as_slice()) != ByteOrder::Less {
                break;
            }
            i = i + 1;
        }
        let found = i < v.len() && compare_bytes(v[i].as_slice(), key.as_slice()) == ByteOrder::Equal;
        proof {
            lemma_bytes_less_trichotomy(p, p);
        }
        if found {
            proof {
                assert(s[i as int] == p);
                assert(s.contains(p));
                assert(s.to_set().insert(p) =~= s.to_set());
            }
            *self = FileReadTracker { keys: v, paths: w };
            false
        } else {
            proof {
                // Every key from position i on is greater than the new one.
                assert forall|k: int| i <= k < s.len() implies bytes_less(p, #[trigger] s[k]) by {
                    lemma_bytes_less_trichotomy(s[i as int], p);
                    if k > i {
                        lemma_bytes_less_transitive(p, s[i as int], s[k]);
                    }
                }
                assert forall|k: int| 0 <= k < s.len() implies #[trigger] s[k] != p by {
                    lemma_bytes_less_trichotomy(s[k], p);
                }
                assert forall|j: int| i <= j < s.len() implies !bytes_less(#[trigger] keys_of(old_paths)[j], p) by {
                    lemma_bytes_less_trichotomy(s[j], p);
                }
                lemma_count_keys_below(old_paths, p, i as int);
            }
            let ghost wv = w@;
            let ghost vv = v@;
            v.insert(i, key);
            w.insert(i, path);
            let ghost t = path_views(v@);
            proof {
                assert(t =~= s.insert(i as int, p));
                assert forall|a: int, b: int| 0 <= a < b < t.len() implies bytes_less(
                    #[trigger] t[a],
                    #[trigger] t[b],
                ) by {
                    if b < i {
                    } else if a < i && b == i {
                    } else if a < i {
                        assert(t[b] == s[b - 1]);
                    } else if a == i {
                        assert(t[b] == s[b - 1]);
                    } else {
                        assert(t[a] == s[a - 1] && t[b] == s[b - 1]);
                    }
                }
                assert forall|j: int| 0 <= j < v@.len() implies (#[trigger] v@[j])@ == component_key(
                    w@[j]@,
                ) by {
                    if j < i {
                        assert(v@[j] == vv[j] && w@[j] == wv[j]);
                    } else if j > i {
                        assert(v@[j] == vv[j - 1] && w@[j] == wv[j - 1]);
                    }
                }
                assert(!s.contains(p));
                assert(path_views(w@) =~= old_paths.insert(i as int, path@));
                assert(t.to_set() =~= s.to_set().insert(p)) by {
                    assert forall|x: Seq<u8>| t.contains(x) implies #[trigger] s.to_set().insert(
                        x,
                    ).contains(x) && s.to_set().insert(p).contains(x) by {
                        let k = choose|k: int| 0 <= k < t.len() && t[k] == x;
                        if k < i {
                            assert(s[k] == x);
                        } else if k > i {
                            assert(s[k - 1] == x);
                        }
                    }
                    assert forall|x: Seq<u8>| s.to_set().insert(p).contains(x) implies t.contains(
                        x,
                    ) by {
                        if x == p {
                            assert(t[i as int] == p);
                        } else {
                            let k = choose|k: int| 0 <= k < s.len() && s[k] == x;
                            if k < i {
                                assert(t[k] == x);
                            } else {
                                assert(t[k + 1] == x);
                            }
                        }
                    }
                }
            }
            *self = FileReadTracker { keys: v, paths: w };
            proof {
                self.lemma_keys();
            }
            true
        }
    }
}

impl View for FileReadTracker {
    type V = Seq<Seq<u8>>;

    closed spec fn view(&self) -> Seq<Seq<u8>> {
        path_views(self.paths@)
    }
}

impl Default for FileReadTracker {
    fn default() -> (r: Self)
        ensures
            r@ == Seq::<Seq<u8>>::empty(),
    {
        FileReadTracker::new()
    }
}

/// A copy of a list of byte vectors.
fn clone_byte_vecs(src: &Vec<Vec<u8>>) -> (r: Vec<Vec<u8>>)
    ensures
        path_views(r@) == path_views(src@),
{
    let mut v: Vec<Vec<u8>> = Vec::new();
    let mut i: usize = 0;
    while i < src.len()
        invariant
            i <= src@.len(),
            v@.len() == i,
            forall|k: int| 0 <= k < i ==> (#[trigger] v@[k])@ == src@[k]@,
        decreases src.len() - i,
    {
        let c = src[i].clone();
        assert(c@ =~= src@[i as int]@);
        v.push(c);
        i = i + 1;
    }
    assert(path_views(v@) =~= path_views(src@));
    v
}

impl Clone for FileReadTracker {
    fn clone(&self) -> (r: Self)
        ensures
            r@ == self@,
    {
        proof {
            use_type_invariant(self);
        }
        let keys = clone_byte_vecs(&self.keys);
        let paths = clone_byte_vecs(&self.paths);
        proof {
            assert(path_views(keys@).len() == keys@.len());
            assert(path_views(self.keys@).len() == self.keys@.len());
            assert(path_views(paths@).len() == paths@.len());
            assert(path_views(self.paths@).len() == self.paths@.len());
            assert forall|i: int| 0 <= i < keys@.len() implies (#[trigger] keys@[i])@ == component_key(
                paths@[i]@,
            ) by {
                assert(path_views(keys@)[i] == path_views(self.keys@)[i]);
                assert(path_views(paths@)[i] == path_views(self.paths@)[i]);
                assert((self.keys@[i])@ == component_key(self.paths@[i]@));
            }
        }
        FileReadTracker { keys, paths }
    }
}

/// The keys of the paths a session has read: `None` when the session
/// tracks no reads.
pub open spec fn tracked_paths(tracker: Option<FileReadTracker>) -> Option<Set<Seq<u8>>> {
    match tracker {
        Some(t) => Some(recorded_keys(t@)),
        None => None,
    }
}

/// The tracked keys after recording a read of the path with key `path`;
/// no change without a tracker.
pub open spec fn read_recorded(paths_read: Option<Set<Seq<u8>>>, path: Seq<u8>) -> Option<Set<Seq<u8>>> {
    match paths_read {
        Some(s) => Some(s.insert(path)),
        None => None,
    }
}

/// A path with key `path` has been read; never, without a tracker.
pub open spec fn has_been_read(paths_read: Option<Set<Seq<u8>>>, path: Seq<u8>) -> bool {
    match paths_read {
        Some(s) => s.contains(path),
        None => false,
    }
}

/// Reads are tracked and no path with key `path` has been read yet.
pub open spec fn read_required(paths_read: Option<Set<Seq<u8>>>, path: Seq<u8>) -> bool {
    match paths_read {
        Some(s) => !s.contains(path),
        None => false,
    }
}

/// Record a successful read (or write) of `path`; a path with the same
/// components recorded earlier keeps its spelling. No-op when the session
/// has no tracker.
pub fn record_read(tracker: &mut Option<FileReadTracker>, path: Vec<u8>)
    ensures
        tracked_paths(*final(tracker)) == read_recorded(
            tracked_paths(*old(tracker)),
            component_key(path@),
        ),
        match (*old(tracker), *final(tracker)) {
            (Some(a), Some(b)) => b@ == with_read(a@, path@),
            (None, None) => true,
            _ => false,
        },
{
    match tracker {
        Some(t) => {
            t.insert(path);
        },
        None => {},
    }
}

/// Whether `path` has been successfully read this session; `false` when
/// the session has no tracker.
pub fn was_read(tracker: &Option<FileReadTracker>, path: &[u8]) -> (r: bool)
    ensures
        r == has_been_read(tracked_paths(*tracker), component_key(path@)),
{
    match tracker {
        Some(t) => t.contains(path),
        None => false,
    }
}

/// True when the session tracks reads and `path` has not been read yet.
/// A missing tracker requires nothing.
pub fn requires_prior_read(tracker: &Option<FileReadTracker>, path: &[u8]) -> (r: bool)
    ensures
        r == read_required(tracked_paths(*tracker), component_key(path@)),
{
    match tracker {
        Some(t) => !t.contains(path),
        None => false,
    }
}

/// Once a path has been read, editing it needs no further read; with a
/// tracker, the path then counts as read.
pub proof fn law_read_then_edit_allowed(paths_read: Option<Set<Seq<u8>>>, path: Seq<u8>)
    ensures
        !read_required(read_recorded(paths_read, path), path),
        has_been_read(read_recorded(paths_read, path), path) == (paths_read is Some),
{
}

/// Recording a read of one path never forgets another, nor marks another as read.
pub proof fn law_record_affects_only_its_path(
    paths_read: Option<Set<Seq<u8>>>,
    path: Seq<u8>,
    other: Seq<u8>,
)
    requires
        other != path,
    ensures
        has_been_read(read_recorded(paths_read, path), other) == has_been_read(paths_read, other),
        read_required(read_recorded(paths_read, path), other) == read_required(paths_read, other),
{
}

/// Recording the same read twice is the same as recording it once.
pub proof fn law_record_idempotent(paths_read: Option<Set<Seq<u8>>>, path: Seq<u8>)
    ensures
        read_recorded(read_recorded(paths_read, path), path) == read_recorded(paths_read, path),
{
    match paths_read {
        Some(s) => {
            assert(s.insert(path).insert(path) =~= s.insert(path));
        },
        None => {},
    }
}

/// A read is required exactly when reads are tracked and the path has not
/// been read; without a tracker nothing counts as read, nothing is required,
/// and recording changes nothing.
pub proof fn law_gate_needs_tracker(paths_read: Option<Set<Seq<u8>>>, path: Seq<u8>)
    ensures
        read_required(paths_read, path) == (paths_read is Some && !has_been_read(paths_read, path)),
        !has_been_read(None, path),
        !read_required(None, path),
        read_recorded(None, path) is None,
{
}

} // verus!
