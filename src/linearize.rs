//! The fixed evaluation order of a constraint group.

use vstd::prelude::*;
use crate::model::{
    copy_text, Constraint, ConstraintAddress, ConstraintAssociatedToken, ConstraintClose,
    ConstraintGroup, ConstraintLiteral, ConstraintMut, ConstraintOwner, ConstraintSigner,
    ConstraintState,
};

verus! {

/// The position of a constraint's category in the evaluation order.
pub open spec fn rank(c: Constraint) -> nat {
    match c {
        Constraint::Zeroed(_) => 0,
        Constraint::Init(_) => 1,
        Constraint::Seeds(_) => 2,
        Constraint::AssociatedToken(_) => 3,
        Constraint::Mut(_) => 4,
        Constraint::Signer(_) => 5,
        Constraint::HasOne(_) => 6,
        Constraint::Literal(_) => 7,
        Constraint::Raw(_) => 8,
        Constraint::Owner(_) => 9,
        Constraint::RentExempt(_) => 10,
        Constraint::Executable(_) => 11,
        Constraint::State(_) => 12,
        Constraint::Close(_) => 13,
        Constraint::Address(_) => 14,
    }
}

/// `c` alone when the category is present, else nothing.
pub open spec fn one(present: bool, c: Constraint) -> Seq<Constraint> {
    if present {
        seq![c]
    } else {
        seq![]
    }
}

/// The single-valued categories that come before the lists.
pub open spec fn leading(g: ConstraintGroup) -> Seq<Constraint> {
    one(g.zeroed is Some, Constraint::Zeroed(g.zeroed->0))
    + one(g.init is Some, Constraint::Init(g.init->0))
    + one(g.seeds is Some, Constraint::Seeds(g.seeds->0))
    + one(g.associated_token is Some, Constraint::AssociatedToken(g.associated_token->0))
    + one(g.mutable is Some, Constraint::Mut(g.mutable->0))
    + one(g.signer is Some, Constraint::Signer(g.signer->0))
}

/// The single-valued categories that come after the lists.
pub open spec fn trailing(g: ConstraintGroup) -> Seq<Constraint> {
    one(g.owner is Some, Constraint::Owner(g.owner->0))
    + one(g.rent_exempt is Some, Constraint::RentExempt(g.rent_exempt->0))
    + one(g.executable is Some, Constraint::Executable(g.executable->0))
    + one(g.state is Some, Constraint::State(g.state->0))
    + one(g.close is Some, Constraint::Close(g.close->0))
    + one(g.address is Some, Constraint::Address(g.address->0))
}

pub open spec fn has_ones(g: ConstraintGroup) -> Seq<Constraint> {
    g.has_one@.map_values(|c| Constraint::HasOne(c))
}

pub open spec fn literals(g: ConstraintGroup) -> Seq<Constraint> {
    g.literal@.map_values(|c| Constraint::Literal(c))
}

pub open spec fn raws(g: ConstraintGroup) -> Seq<Constraint> {
    g.raw@.map_values(|c| Constraint::Raw(c))
}

/// The linearised form of a group: the single-valued categories in their
/// fixed order, with the three list categories in their declared order at
/// their fixed place.
#[verifier::opaque]
pub open spec fn linearized(g: ConstraintGroup) -> Seq<Constraint> {
    leading(g) + has_ones(g) + literals(g) + raws(g) + trailing(g)
}

#[verifier::rlimit(100)]
fn push_leading(g: &ConstraintGroup, out: &mut Vec<Constraint>)
    ensures
        final(out)@ == old(out)@ + leading(*g),
{
    let ghost start = out@;
    if let Some(c) = &g.zeroed {
        out.push(Constraint::Zeroed(*c));
    }
    let ghost p = one(g.zeroed is Some, Constraint::Zeroed(g.zeroed->0));
    assert(out@ =~= start + p);
    if let Some(c) = &g.init {
        out.push(Constraint::Init(c.duplicate()));
    }
    let ghost p = p + one(g.init is Some, Constraint::Init(g.init->0));
    assert(out@ =~= start + p);
    if let Some(c) = &g.seeds {
        out.push(Constraint::Seeds(c.duplicate()));
    }
    let ghost p = p + one(g.seeds is Some, Constraint::Seeds(g.seeds->0));
    assert(out@ =~= start + p);
    if let Some(c) = &g.associated_token {
        out.push(
            Constraint::AssociatedToken(
                ConstraintAssociatedToken { wallet: c.wallet.clone(), mint: c.mint.clone() },
            ),
        );
    }
    let ghost p = p + one(g.associated_token is Some, Constraint::AssociatedToken(g.associated_token->0));
    assert(out@ =~= start + p);
    if let Some(c) = &g.mutable {
        out.push(Constraint::Mut(ConstraintMut { error: copy_text(&c.error) }));
    }
    let ghost p = p + one(g.mutable is Some, Constraint::Mut(g.mutable->0));
    assert(out@ =~= start + p);
    if let Some(c) = &g.signer {
        out.push(Constraint::Signer(ConstraintSigner { error: copy_text(&c.error) }));
    }
    let ghost p = p + one(g.signer is Some, Constraint::Signer(g.signer->0));
    assert(out@ =~= start + p);
}

#[verifier::rlimit(100)]
fn push_trailing(g: &ConstraintGroup, out: &mut Vec<Constraint>)
    ensures
        final(out)@ == old(out)@ + trailing(*g),
{
    let ghost start = out@;
    if let Some(c) = &g.owner {
        out.push(
            Constraint::Owner(
                ConstraintOwner {
                    owner_address: c.owner_address.clone(),
                    error: copy_text(&c.error),
                },
            ),
        );
    }
    let ghost p = one(g.owner is Some, Constraint::Owner(g.owner->0));
    assert(out@ =~= start + p);
    if let Some(c) = &g.rent_exempt {
        out.push(Constraint::RentExempt(*c));
    }
    let ghost p = p + one(g.rent_exempt is Some, Constraint::RentExempt(g.rent_exempt->0));
    assert(out@ =~= start + p);
    if let Some(c) = &g.executable {
        out.push(Constraint::Executable(*c));
    }
    let ghost p = p + one(g.executable is Some, Constraint::Executable(g.executable->0));
    assert(out@ =~= start + p);
    if let Some(c) = &g.state {
        out.push(Constraint::State(ConstraintState { program_target: c.program_target.clone() }));
    }
    let ghost p = p + one(g.state is Some, Constraint::State(g.state->0));
    assert(out@ =~= start + p);
    if let Some(c) = &g.close {
        out.push(Constraint::Close(ConstraintClose { sol_dest: c.sol_dest.clone() }));
    }
    let ghost p = p + one(g.close is Some, Constraint::Close(g.close->0));
    assert(out@ =~= start + p);
    if let Some(c) = &g.address {
        out.push(
            Constraint::Address(
                ConstraintAddress { address: c.address.clone(), error: copy_text(&c.error) },
            ),
        );
    }
    let ghost p = p + one(g.address is Some, Constraint::Address(g.address->0));
    assert(out@ =~= start + p);
}

fn push_lists(g: &ConstraintGroup, out: &mut Vec<Constraint>)
    ensures
        final(out)@ == old(out)@ + has_ones(*g) + literals(*g) + raws(*g),
{
    let ghost start = out@;
    let mut i: usize = 0;
    while i < g.has_one.len()
        invariant
            i <= g.has_one.len(),
            out@.len() == start.len() + i,
            out@.subrange(0, start.len() as int) == start,
            forall|k: int| 0 <= k < i ==> out@[start.len() + k] == Constraint::HasOne(g.has_one@[k]),
        decreases g.has_one.len() - i,
    {
        out.push(Constraint::HasOne(g.has_one[i].duplicate()));
        i = i + 1;
    }
    assert(out@ =~= start + has_ones(*g));
    let ghost start = out@;
    let mut i: usize = 0;
    while i < g.literal.len()
        invariant
            i <= g.literal.len(),
            out@.len() == start.len() + i,
            out@.subrange(0, start.len() as int) == start,
            forall|k: int| 0 <= k < i ==> out@[start.len() + k] == Constraint::Literal(g.literal@[k]),
        decreases g.literal.len() - i,
    {
        out.push(Constraint::Literal(ConstraintLiteral { lit: g.literal[i].lit.clone() }));
        i = i + 1;
    }
    assert(out@ =~= start + literals(*g));
    let ghost start = out@;
    let mut i: usize = 0;
    while i < g.raw.len()
        invariant
            i <= g.raw.len(),
            out@.len() == start.len() + i,
            out@.subrange(0, start.len() as int) == start,
            forall|k: int| 0 <= k < i ==> out@[start.len() + k] == Constraint::Raw(g.raw@[k]),
        decreases g.raw.len() - i,
    {
        out.push(Constraint::Raw(g.raw[i].duplicate()));
        i = i + 1;
    }
    assert(out@ =~= start + raws(*g));
}

/// Orders the constraints of a group so that those that establish values
/// (creation, derivation) run before those that read them.
pub fn linearize(c_group: &ConstraintGroup) -> (r: Vec<Constraint>)
    ensures
        r@ == linearized(*c_group),
{
    let mut constraints: Vec<Constraint> = Vec::new();
    push_leading(c_group, &mut constraints);
    push_lists(c_group, &mut constraints);
    push_trailing(c_group, &mut constraints);
    reveal(linearized);
    assert(constraints@ =~= linearized(*c_group));
    constraints
}

/// Ranks never decrease along `s`.
#[verifier::opaque]
pub open spec fn ordered(s: Seq<Constraint>) -> bool {
    forall|i: int, j: int| 0 <= i < j < s.len() ==> rank(s[i]) <= rank(s[j])
}

/// Whether a constraint belongs to the category of rank `k`.
pub open spec fn in_category(k: nat) -> spec_fn(Constraint) -> bool {
    |c: Constraint| rank(c) == k
}

proof fn lemma_join(acc: Seq<Constraint>, piece: Seq<Constraint>, lo: nat, k: nat, m: nat)
    requires
        ordered(acc),
        ordered(piece),
        forall|i: int| 0 <= i < acc.len() ==> lo <= rank(#[trigger] acc[i]) <= k,
        forall|i: int| 0 <= i < piece.len() ==> k <= rank(#[trigger] piece[i]) <= m,
        lo <= k <= m,
    ensures
        ordered(acc + piece),
        forall|i: int|
            0 <= i < (acc + piece).len() ==> lo <= rank(#[trigger] (acc + piece)[i]) <= m,
{
    reveal(ordered);
    let s = acc + piece;
    assert forall|i: int, j: int| 0 <= i < j < s.len() implies rank(s[i]) <= rank(s[j]) by {
        if j < acc.len() {
            assert(s[i] == acc[i] && s[j] == acc[j]);
        } else if i < acc.len() {
            assert(s[i] == acc[i] && s[j] == piece[j - acc.len()]);
        } else {
            assert(s[i] == piece[i - acc.len()] && s[j] == piece[j - acc.len()]);
        }
    }
    assert forall|i: int| 0 <= i < s.len() implies lo <= rank(#[trigger] s[i]) <= m by {
        if i < acc.len() {
            assert(s[i] == acc[i]);
        } else {
            assert(s[i] == piece[i - acc.len()]);
        }
    }
}

proof fn lemma_filter_all(s: Seq<Constraint>, k: nat)
    requires
        forall|i: int| 0 <= i < s.len() ==> rank(#[trigger] s[i]) == k,
    ensures
        s.filter(in_category(k)) == s,
    decreases s.len(),
{
    reveal_with_fuel(Seq::filter, 1);
    if s.len() > 0 {
        let t = s.drop_last();
        assert forall|i: int| 0 <= i < t.len() implies rank(#[trigger] t[i]) == k by {
            assert(t[i] == s[i]);
        }
        lemma_filter_all(t, k);
        assert(t.push(s.last()) =~= s);
    }
}

proof fn lemma_filter_none(s: Seq<Constraint>, k: nat)
    requires
        forall|i: int| 0 <= i < s.len() ==> rank(#[trigger] s[i]) != k,
    ensures
        s.filter(in_category(k)) == Seq::<Constraint>::empty(),
    decreases s.len(),
{
    reveal_with_fuel(Seq::filter, 1);
    if s.len() > 0 {
        let t = s.drop_last();
        assert forall|i: int| 0 <= i < t.len() implies rank(#[trigger] t[i]) != k by {
            assert(t[i] == s[i]);
        }
        lemma_filter_none(t, k);
    }
}

proof fn lemma_leading_ranks(g: ConstraintGroup)
    ensures
        ordered(leading(g)),
        forall|i: int| 0 <= i < leading(g).len() ==> rank(#[trigger] leading(g)[i]) <= 5,
{
    let s0 = one(g.zeroed is Some, Constraint::Zeroed(g.zeroed->0));
    let s1 = one(g.init is Some, Constraint::Init(g.init->0));
    let s2 = one(g.seeds is Some, Constraint::Seeds(g.seeds->0));
    let s3 = one(g.associated_token is Some, Constraint::AssociatedToken(g.associated_token->0));
    let s4 = one(g.mutable is Some, Constraint::Mut(g.mutable->0));
    let s5 = one(g.signer is Some, Constraint::Signer(g.signer->0));
    reveal(ordered);
    lemma_join(Seq::empty(), s0, 0, 0, 0);
    assert(Seq::<Constraint>::empty() + s0 =~= s0);
    lemma_join(s0, s1, 0, 1, 1);
    lemma_join(s0 + s1, s2, 0, 2, 2);
    lemma_join(s0 + s1 + s2, s3, 0, 3, 3);
    lemma_join(s0 + s1 + s2 + s3, s4, 0, 4, 4);
    lemma_join(s0 + s1 + s2 + s3 + s4, s5, 0, 5, 5);
}

proof fn lemma_trailing_ranks(g: ConstraintGroup)
    ensures
        ordered(trailing(g)),
        forall|i: int| 0 <= i < trailing(g).len() ==> 9 <= rank(#[trigger] trailing(g)[i]) <= 14,
{
    let s0 = one(g.owner is Some, Constraint::Owner(g.owner->0));
    let s1 = one(g.rent_exempt is Some, Constraint::RentExempt(g.rent_exempt->0));
    let s2 = one(g.executable is Some, Constraint::Executable(g.executable->0));
    let s3 = one(g.state is Some, Constraint::State(g.state->0));
    let s4 = one(g.close is Some, Constraint::Close(g.close->0));
    let s5 = one(g.address is Some, Constraint::Address(g.address->0));
    reveal(ordered);
    lemma_join(Seq::empty(), s0, 9, 9, 9);
    assert(Seq::<Constraint>::empty() + s0 =~= s0);
    lemma_join(s0, s1, 9, 10, 10);
    lemma_join(s0 + s1, s2, 9, 11, 11);
    lemma_join(s0 + s1 + s2, s3, 9, 12, 12);
    lemma_join(s0 + s1 + s2 + s3, s4, 9, 13, 13);
    lemma_join(s0 + s1 + s2 + s3 + s4, s5, 9, 14, 14);
}

proof fn lemma_filter_pieces(
    l: Seq<Constraint>,
    h: Seq<Constraint>,
    a: Seq<Constraint>,
    r: Seq<Constraint>,
    t: Seq<Constraint>,
    k: nat,
)
    ensures
        (l + h + a + r + t).filter(in_category(k)) == l.filter(in_category(k)) + h.filter(
            in_category(k),
        ) + a.filter(in_category(k)) + r.filter(in_category(k)) + t.filter(in_category(k)),
{
    Seq::filter_distributes_over_add(l + h + a + r, t, in_category(k));
    Seq::filter_distributes_over_add(l + h + a, r, in_category(k));
    Seq::filter_distributes_over_add(l + h, a, in_category(k));
    Seq::filter_distributes_over_add(l, h, in_category(k));
}

proof fn lemma_ordered(g: ConstraintGroup)
    ensures
        ordered(linearized(g)),
{
    let l = leading(g);
    let h = has_ones(g);
    let a = literals(g);
    let r = raws(g);
    let t = trailing(g);
    reveal(linearized);
    lemma_leading_ranks(g);
    lemma_trailing_ranks(g);
    reveal(ordered);
    assert forall|i: int| 0 <= i < h.len() implies rank(#[trigger] h[i]) == 6 by {}
    assert forall|i: int| 0 <= i < a.len() implies rank(#[trigger] a[i]) == 7 by {}
    assert forall|i: int| 0 <= i < r.len() implies rank(#[trigger] r[i]) == 8 by {}
    lemma_join(l, h, 0, 6, 6);
    lemma_join(l + h, a, 0, 7, 7);
    lemma_join(l + h + a, r, 0, 8, 8);
    lemma_join(l + h + a + r, t, 0, 9, 14);
}

/// The declared constraints of the repeatable category of rank `k`.
pub open spec fn listed(g: ConstraintGroup, k: nat) -> Seq<Constraint> {
    if k == 6 {
        has_ones(g)
    } else if k == 7 {
        literals(g)
    } else {
        raws(g)
    }
}

proof fn lemma_keeps(g: ConstraintGroup, k: nat)
    requires
        6 <= k <= 8,
    ensures
        linearized(g).filter(in_category(k)) == listed(g, k),
{
    let l = leading(g);
    let h = has_ones(g);
    let a = literals(g);
    let r = raws(g);
    let t = trailing(g);
    reveal(linearized);
    lemma_leading_ranks(g);
    lemma_trailing_ranks(g);
    let e = Seq::<Constraint>::empty();
    lemma_filter_pieces(l, h, a, r, t, k);
    lemma_filter_none(l, k);
    lemma_filter_none(t, k);
    if k == 6 {
        lemma_filter_all(h, k);
        lemma_filter_none(a, k);
        lemma_filter_none(r, k);
        assert(e + h + e + e + e =~= h);
    } else if k == 7 {
        lemma_filter_none(h, k);
        lemma_filter_all(a, k);
        lemma_filter_none(r, k);
        assert(e + e + a + e + e =~= a);
    } else {
        lemma_filter_none(h, k);
        lemma_filter_none(a, k);
        lemma_filter_all(r, k);
        assert(e + e + e + r + e =~= r);
    }
}

/// The linearised order is a function of the categories alone: ranks never
/// decrease along it, whatever order the constraints were declared in, and the
/// constraints of each repeatable category appear exactly in their declared
/// order.
pub proof fn lemma_linearize_order(g: ConstraintGroup)
    ensures
        ordered(linearized(g)),
        linearized(g).filter(in_category(6)) == listed(g, 6),
        linearized(g).filter(in_category(7)) == listed(g, 7),
        linearized(g).filter(in_category(8)) == listed(g, 8),
{
    lemma_ordered(g);
    assert(linearized(g).filter(in_category(6)) == listed(g, 6)) by {
        lemma_keeps(g, 6);
    }
    assert(linearized(g).filter(in_category(7)) == listed(g, 7)) by {
        lemma_keeps(g, 7);
    }
    assert(linearized(g).filter(in_category(8)) == listed(g, 8)) by {
        lemma_keeps(g, 8);
    }
}

/// The constraints of the repeatable categories, in linearised order.
pub open spec fn repeated(g: ConstraintGroup) -> Seq<Constraint> {
    has_ones(g) + literals(g) + raws(g)
}

proof fn lemma_middle_shape(g1: ConstraintGroup, g2: ConstraintGroup)
    requires
        g1.has_one@.len() == g2.has_one@.len(),
        g1.literal@.len() == g2.literal@.len(),
        g1.raw@.len() == g2.raw@.len(),
    ensures
        repeated(g1).len() == repeated(g2).len(),
        forall|i: int|
            0 <= i < repeated(g1).len() ==> rank(#[trigger] repeated(g1)[i]) == rank(repeated(g2)[i])
                && 6 <= rank(repeated(g1)[i]) <= 8,
{
    let (h1, a1, r1) = (has_ones(g1), literals(g1), raws(g1));
    let (h2, a2, r2) = (has_ones(g2), literals(g2), raws(g2));
    let m1 = h1 + a1 + r1;
    let m2 = h2 + a2 + r2;
    assert forall|i: int| 0 <= i < m1.len() implies rank(#[trigger] m1[i]) == rank(m2[i]) && 6
        <= rank(m1[i]) <= 8 by {
        if i < h1.len() {
            assert(m1[i] == h1[i] && m2[i] == h2[i]);
        } else if i < h1.len() + a1.len() {
            assert(m1[i] == a1[i - h1.len()] && m2[i] == a2[i - h1.len()]);
        } else {
            assert(m1[i] == r1[i - h1.len() - a1.len()] && m2[i] == r2[i - h1.len() - a1.len()]);
        }
    }
}

proof fn lemma_concat_shape(
    l: Seq<Constraint>,
    m1: Seq<Constraint>,
    m2: Seq<Constraint>,
    t: Seq<Constraint>,
)
    requires
        m1.len() == m2.len(),
        forall|i: int| 0 <= i < m1.len() ==> rank(#[trigger] m1[i]) == rank(m2[i]) && 6 <= rank(m1[i]) <= 8,
        forall|i: int| 0 <= i < l.len() ==> rank(#[trigger] l[i]) <= 5,
        forall|i: int| 0 <= i < t.len() ==> 9 <= rank(#[trigger] t[i]),
    ensures
        (l + m1 + t).len() == (l + m2 + t).len(),
        forall|i: int|
            0 <= i < (l + m1 + t).len() ==> rank(#[trigger] (l + m1 + t)[i]) == rank((l + m2 + t)[i]),
        forall|i: int|
            0 <= i < (l + m1 + t).len() && !(6 <= rank((l + m1 + t)[i]) <= 8) ==> #[trigger] (l + m1
                + t)[i] == (l + m2 + t)[i],
{
    let s1 = l + m1 + t;
    let s2 = l + m2 + t;
    assert forall|i: int| 0 <= i < s1.len() implies rank(#[trigger] s1[i]) == rank(s2[i]) && (!(6
        <= rank(s1[i]) <= 8) ==> s1[i] == s2[i]) by {
        if i < l.len() {
            assert(s1[i] == l[i] && s2[i] == l[i]);
        } else if i < l.len() + m1.len() {
            assert(s1[i] == m1[i - l.len()] && s2[i] == m2[i - l.len()]);
        } else {
            assert(s1[i] == t[i - l.len() - m1.len()] && s2[i] == t[i - l.len() - m1.len()]);
        }
    }
}

/// The declaration order within the repeatable categories moves nothing
/// else: two groups that agree on every single-valued category and declare
/// the same repeatable constraints in any order linearise to sequences of the
/// same categories, position by position, equal outside the repeatable slots;
/// and to the same sequence when the declared orders agree too.
pub proof fn lemma_linearize_permutation(g1: ConstraintGroup, g2: ConstraintGroup)
    requires
        leading(g1) == leading(g2),
        trailing(g1) == trailing(g2),
        g1.has_one@.to_multiset() == g2.has_one@.to_multiset(),
        g1.literal@.to_multiset() == g2.literal@.to_multiset(),
        g1.raw@.to_multiset() == g2.raw@.to_multiset(),
    ensures
        linearized(g1).len() == linearized(g2).len(),
        forall|i: int|
            0 <= i < linearized(g1).len() ==> rank(#[trigger] linearized(g1)[i]) == rank(
                linearized(g2)[i],
            ),
        forall|i: int|
            0 <= i < linearized(g1).len() && !(6 <= rank(linearized(g1)[i]) <= 8) ==> #[trigger] linearized(g1)[i]
                == linearized(g2)[i],
        (g1.has_one@ == g2.has_one@ && g1.literal@ == g2.literal@ && g1.raw@ == g2.raw@) ==> linearized(g1)
            == linearized(g2),
{
    vstd::seq_lib::to_multiset_len(g1.has_one@);
    vstd::seq_lib::to_multiset_len(g2.has_one@);
    vstd::seq_lib::to_multiset_len(g1.literal@);
    vstd::seq_lib::to_multiset_len(g2.literal@);
    vstd::seq_lib::to_multiset_len(g1.raw@);
    vstd::seq_lib::to_multiset_len(g2.raw@);
    lemma_middle_shape(g1, g2);
    lemma_leading_ranks(g1);
    lemma_trailing_ranks(g1);
    let l = leading(g1);
    let t = trailing(g1);
    let m1 = repeated(g1);
    let m2 = repeated(g2);
    lemma_concat_shape(l, m1, m2, t);
    reveal(linearized);
    assert(linearized(g1) =~= l + m1 + t);
    assert(linearized(g2) =~= l + m2 + t);
}

} // verus!
