//! What a synthesised procedure does when it runs, and the laws it obeys.
//!
//! The environment of a run is a `World`: what each predicate evaluates to,
//! the state of the accounts, and the address-derivation functions of the
//! network, and which calls into other programs fail. A run executes the
//! steps in order and stops at the first failed check or call.

use vstd::prelude::*;
use crate::model::{ConstraintInitGroup, ConstraintSeedsGroup, Field};
use crate::procedure::{
    InternalError, Cond, CreateAccount, Creation, Derivation, ErrorCode, Failure, Guard, InitProcedure, OwnerExpr,
    SpaceExpr, Step,
};
use crate::generate::{
    derived_seeds, fixed_failure, is_init_step, is_seeds_step, without_trailing_comma,
};

verus! {

/// The environment in which a procedure runs.
pub ghost struct World {
    /// Whether the predicate of a check holds.
    pub holds: spec_fn(Cond) -> bool,
    /// Whether the account is still owned by the system program.
    pub system_owned: spec_fn(String) -> bool,
    /// Whether the account holds no lamports.
    pub unfunded: spec_fn(String) -> bool,
    /// The lamports a funded account still needs to be rent exempt at a size.
    pub top_up: spec_fn(String, SpaceExpr) -> nat,
    /// The key of an account.
    pub key: spec_fn(String) -> int,
    /// The value of a bump expression.
    pub bump: spec_fn(String) -> int,
    /// The canonical address and bump of a seed list under a program (the
    /// current program when absent).
    pub find: spec_fn(Seq<char>, Option<String>) -> (int, int),
    /// The address of a seed list with a bump under a program, when it is valid.
    pub create: spec_fn(Seq<char>, int, Option<String>) -> Option<int>,
    /// Whether a call into another program returns an error.
    pub fails: spec_fn(Call) -> bool,
}

/// The network's derivation law: the canonical bump of a seed list is the
/// highest bump (at most 255) that yields a valid address, and that address
/// is the canonical one.
pub open spec fn canonical_derivation(w: World) -> bool {
    forall|seeds: Seq<char>, program: Option<String>|
        {
            let (a, b) = #[trigger] (w.find)(seeds, program);
            &&& 0 <= b <= 255
            &&& (w.create)(seeds, b, program) == Some(a)
            &&& forall|b2: int| b < b2 <= 255 ==> (#[trigger] (w.create)(seeds, b2, program)) is None
        }
}

/// A call the procedure makes into another program.
pub enum Call {
    CreateAccount { payer: String, field: String, space: SpaceExpr, owner: OwnerExpr, signed: bool },
    Transfer { payer: String, field: String },
    Allocate { field: String, space: SpaceExpr, signed: bool },
    Assign { field: String, owner: OwnerExpr, signed: bool },
    InitializeAccount { field: String, mint: String, authority: String },
    InitializeMint {
        field: String,
        decimals: String,
        authority: String,
        freeze_authority: Option<String>,
    },
    CreateAssociated { payer: String, field: String, wallet: String, mint: String },
}

/// Why a run stopped: a check failed with its error, or a call returned an
/// error, which the procedure passes on.
pub enum Abort {
    Check(Failure),
    Call(Call),
}

/// The state of a run: the calls made so far, the bumps recorded per field,
/// and what stopped it, if anything.
pub ghost struct Run {
    pub calls: Seq<Call>,
    pub bumps: Map<String, (int, int)>,
    pub failure: Option<Abort>,
}

pub open spec fn fail(st: Run, f: Failure) -> Run {
    Run { failure: Some(Abort::Check(f)), ..st }
}

/// Issues calls in order; a call that fails stops the run with its error,
/// and no later call is issued.
pub open spec fn issue(w: World, calls: Seq<Call>, st: Run) -> Run
    decreases calls.len(),
{
    if calls.len() == 0 || st.failure is Some {
        st
    } else {
        let issued = Run { calls: st.calls.push(calls[0]), ..st };
        let next = if (w.fails)(calls[0]) {
            Run { failure: Some(Abort::Call(calls[0])), ..issued }
        } else {
            issued
        };
        issue(w, calls.drop_first(), next)
    }
}

pub open spec fn check(w: World, g: Guard, st: Run) -> Run {
    if st.failure is Some || (w.holds)(g.cond) {
        st
    } else {
        fail(st, g.fail)
    }
}

pub open spec fn checks(w: World, gs: Seq<Guard>, st: Run) -> Run
    decreases gs.len(),
{
    if gs.len() == 0 {
        st
    } else {
        checks(w, gs.drop_first(), check(w, gs[0], st))
    }
}

/// The system-program calls that create an account: one signed creation when
/// it holds no lamports, else a top-up when one is needed, then allocation and
/// assignment.
pub open spec fn account_calls(w: World, a: CreateAccount, payer: String) -> Seq<Call> {
    let signed = a.signer_seeds is Some;
    if (w.unfunded)(a.field) {
        seq![
            Call::CreateAccount {
                payer,
                field: a.field,
                space: a.space,
                owner: a.owner,
                signed,
            },
        ]
    } else {
        (if (w.top_up)(a.field, a.space) > 0 {
            seq![Call::Transfer { payer, field: a.field }]
        } else {
            seq![]
        }) + seq![
            Call::Allocate { field: a.field, space: a.space, signed },
            Call::Assign { field: a.field, owner: a.owner, signed },
        ]
    }
}

pub open spec fn creation_calls(w: World, p: InitProcedure) -> Seq<Call> {
    match p.creation {
        Creation::Program { account } => account_calls(w, account, p.payer),
        Creation::Token { account, mint, authority } => account_calls(w, account, p.payer) + seq![
            Call::InitializeAccount { field: p.field, mint, authority },
        ],
        Creation::Mint { account, decimals, authority, freeze_authority } => account_calls(
            w,
            account,
            p.payer,
        ) + seq![Call::InitializeMint { field: p.field, decimals, authority, freeze_authority }],
        Creation::AssociatedToken { wallet, mint } => seq![
            Call::CreateAssociated { payer: p.payer, field: p.field, wallet, mint },
        ],
    }
}

/// Creation runs when it is unconditional or the account does not exist yet.
pub open spec fn creates(w: World, p: InitProcedure) -> bool {
    !p.if_needed || (w.system_owned)(p.field)
}

/// The bumps after an init step has searched its derived address.
pub open spec fn found_bumps(w: World, p: InitProcedure, bumps: Map<String, (int, int)>) -> Map<
    String,
    (int, int),
> {
    match p.pda_seeds {
        Some(s) => bumps.insert(p.field, (w.find)(s@, None)),
        None => bumps,
    }
}

pub open spec fn run_init(w: World, p: InitProcedure, st: Run) -> Run {
    if st.failure is Some {
        st
    } else {
        let found = Run { bumps: found_bumps(w, p, st.bumps), ..st };
        let created = if creates(w, p) {
            issue(w, creation_calls(w, p), found)
        } else {
            found
        };
        checks(w, p.reverify(), created)
    }
}

pub open spec fn run_seeds(w: World, field: String, d: Derivation, f: Failure, st: Run) -> Run {
    if st.failure is Some {
        st
    } else {
        match d {
            Derivation::FromInit { bump } => if !st.bumps.contains_key(field) || (w.key)(field)
                != st.bumps[field].0 {
                fail(st, f)
            } else {
                match bump {
                    Some(b) => if (w.bump)(b) != st.bumps[field].1 {
                        fail(st, f)
                    } else {
                        st
                    },
                    None => st,
                }
            },
            Derivation::Search { seeds, program } => {
                let found = (w.find)(seeds@, program);
                let recorded = Run { bumps: st.bumps.insert(field, found), ..st };
                if (w.key)(field) != found.0 {
                    fail(recorded, f)
                } else {
                    recorded
                }
            },
            Derivation::Verify { seeds, bump, program } => match (w.create)(
                seeds@,
                (w.bump)(bump),
                program,
            ) {
                Some(a) => if (w.key)(field) != a {
                    fail(st, f)
                } else {
                    st
                },
                None => fail(st, f),
            },
        }
    }
}

/// One step of a run.
pub open spec fn run_step(w: World, s: Step, st: Run) -> Run {
    match s {
        Step::Skip => st,
        Step::Check(g) => check(w, g, st),
        Step::Both(a, b) => check(w, b, check(w, a, st)),
        Step::Deprecated { check: g, .. } => check(w, g, st),
        Step::Zeroed { check: g, .. } => check(w, g, st),
        Step::Seeds { field, derivation, fail } => run_seeds(w, field, derivation, fail, st),
        Step::Init(p) => run_init(w, p, st),
    }
}

/// A run of the steps in order.
pub open spec fn run(w: World, steps: Seq<Step>, st: Run) -> Run
    decreases steps.len(),
{
    if steps.len() == 0 {
        st
    } else {
        run(w, steps.drop_first(), run_step(w, steps[0], st))
    }
}

/// A run stops at its first failure: once a step has failed, the remaining
/// steps make no call, record no bump, and the failure is the one reported.
pub proof fn lemma_fail_fast(w: World, steps: Seq<Step>, st: Run)
    requires
        st.failure is Some,
    ensures
        run(w, steps, st) == st,
    decreases steps.len(),
{
    if steps.len() > 0 {
        assert(run_step(w, steps[0], st) == st);
        lemma_fail_fast(w, steps.drop_first(), st);
    }
}

proof fn lemma_checks_pass(w: World, gs: Seq<Guard>, st: Run)
    requires
        st.failure is None,
        forall|i: int| 0 <= i < gs.len() ==> (w.holds)(#[trigger] gs[i].cond),
    ensures
        checks(w, gs, st) == st,
    decreases gs.len(),
{
    if gs.len() > 0 {
        assert forall|i: int| 0 <= i < gs.drop_first().len() implies (w.holds)(
            #[trigger] gs.drop_first()[i].cond,
        ) by {
            assert(gs.drop_first()[i] == gs[i + 1]);
        }
        lemma_checks_pass(w, gs.drop_first(), check(w, gs[0], st));
    }
}

proof fn lemma_checks_first_failure(w: World, gs: Seq<Guard>, st: Run, k: int)
    requires
        st.failure is None,
        0 <= k < gs.len(),
        !(w.holds)(gs[k].cond),
        forall|i: int| 0 <= i < k ==> (w.holds)(#[trigger] gs[i].cond),
    ensures
        checks(w, gs, st).failure == Some(Abort::Check(gs[k].fail)),
    decreases gs.len(),
{
    let rest = gs.drop_first();
    if k == 0 {
        lemma_fail_checks(w, rest, fail(st, gs[0].fail));
    } else {
        assert forall|i: int| 0 <= i < k - 1 implies (w.holds)(#[trigger] rest[i].cond) by {
            assert(rest[i] == gs[i + 1]);
        }
        assert(rest[k - 1] == gs[k]);
        lemma_checks_first_failure(w, rest, check(w, gs[0], st), k - 1);
    }
}

proof fn lemma_fail_checks(w: World, gs: Seq<Guard>, st: Run)
    requires
        st.failure is Some,
    ensures
        checks(w, gs, st) == st,
    decreases gs.len(),
{
    if gs.len() > 0 {
        lemma_fail_checks(w, gs.drop_first(), st);
    }
}

proof fn lemma_checks_calls(w: World, gs: Seq<Guard>, st: Run)
    ensures
        checks(w, gs, st).calls == st.calls,
        checks(w, gs, st).bumps == st.bumps,
    decreases gs.len(),
{
    if gs.len() > 0 {
        lemma_checks_calls(w, gs.drop_first(), check(w, gs[0], st));
    }
}

proof fn lemma_issue_ok(w: World, calls: Seq<Call>, st: Run)
    requires
        st.failure is None,
        forall|i: int| 0 <= i < calls.len() ==> !(w.fails)(#[trigger] calls[i]),
    ensures
        issue(w, calls, st) == (Run { calls: st.calls + calls, ..st }),
    decreases calls.len(),
{
    if calls.len() > 0 {
        let rest = calls.drop_first();
        assert forall|i: int| 0 <= i < rest.len() implies !(w.fails)(#[trigger] rest[i]) by {
            assert(rest[i] == calls[i + 1]);
        }
        assert(!(w.fails)(calls[0]));
        lemma_issue_ok(w, rest, Run { calls: st.calls.push(calls[0]), ..st });
        assert(st.calls.push(calls[0]) + rest =~= st.calls + calls);
    } else {
        assert(st.calls + calls =~= st.calls);
    }
}

proof fn lemma_issue_stopped(w: World, calls: Seq<Call>, st: Run)
    requires
        st.failure is Some,
    ensures
        issue(w, calls, st) == st,
{
}

proof fn lemma_issue_fails(w: World, calls: Seq<Call>, st: Run, k: int)
    requires
        st.failure is None,
        0 <= k < calls.len(),
        (w.fails)(calls[k]),
        forall|i: int| 0 <= i < k ==> !(w.fails)(#[trigger] calls[i]),
    ensures
        issue(w, calls, st) == (Run {
            calls: st.calls + calls.subrange(0, k + 1),
            failure: Some(Abort::Call(calls[k])),
            ..st
        }),
    decreases calls.len(),
{
    let rest = calls.drop_first();
    let issued = Run { calls: st.calls.push(calls[0]), ..st };
    if k == 0 {
        let stopped = Run { failure: Some(Abort::Call(calls[0])), ..issued };
        lemma_issue_stopped(w, rest, stopped);
        assert(st.calls.push(calls[0]) =~= st.calls + calls.subrange(0, 1));
    } else {
        assert forall|i: int| 0 <= i < k - 1 implies !(w.fails)(#[trigger] rest[i]) by {
            assert(rest[i] == calls[i + 1]);
        }
        assert(rest[k - 1] == calls[k]);
        assert(!(w.fails)(calls[0]));
        lemma_issue_fails(w, rest, issued, k - 1);
        assert(st.calls.push(calls[0]) + rest.subrange(0, k) =~= st.calls + calls.subrange(0, k + 1));
    }
}

/// A failed call stops creation: when a creation call returns an error, the
/// step has issued exactly the calls up to that one, stops with that call's
/// error, and runs no re-verification.
pub proof fn lemma_creation_call_failure(w: World, p: InitProcedure, st: Run, k: int)
    requires
        creates(w, p),
        st.failure is None,
        0 <= k < creation_calls(w, p).len(),
        (w.fails)(creation_calls(w, p)[k]),
        forall|i: int| 0 <= i < k ==> !(w.fails)(#[trigger] creation_calls(w, p)[i]),
    ensures
        run_step(w, Step::Init(p), st).calls == st.calls + creation_calls(w, p).subrange(0, k + 1),
        run_step(w, Step::Init(p), st).failure == Some(Abort::Call(creation_calls(w, p)[k])),
{
    let found = Run { bumps: found_bumps(w, p, st.bumps), ..st };
    lemma_issue_fails(w, creation_calls(w, p), found, k);
    lemma_fail_checks(w, p.reverify(), issue(w, creation_calls(w, p), found));
}

/// Re-verification never corrects silently: when an existing account fails
/// one of the checks, the creation step makes no call and fails with the
/// category of the first check that does not hold.
pub proof fn lemma_if_needed_mismatch(w: World, p: InitProcedure, st: Run, k: int)
    requires
        p.if_needed,
        !(w.system_owned)(p.field),
        st.failure is None,
        0 <= k < p.reverify().len(),
        !(w.holds)(p.reverify()[k].cond),
        forall|i: int| 0 <= i < k ==> (w.holds)(#[trigger] p.reverify()[i].cond),
    ensures
        run_step(w, Step::Init(p), st).calls == st.calls,
        run_step(w, Step::Init(p), st).failure == Some(Abort::Check(p.reverify()[k].fail)),
{
    let found = Run { bumps: found_bumps(w, p, st.bumps), ..st };
    lemma_checks_first_failure(w, p.reverify(), found, k);
    lemma_checks_calls(w, p.reverify(), found);
}

/// Conditional creation is idempotent: on an account that already exists
/// (it is no longer owned by the system program) and meets every
/// re-verification check, the creation step makes no call and succeeds.
pub proof fn lemma_if_needed_idempotent(w: World, p: InitProcedure, st: Run)
    requires
        p.if_needed,
        !(w.system_owned)(p.field),
        st.failure is None,
        forall|i: int| 0 <= i < p.reverify().len() ==> (w.holds)(#[trigger] p.reverify()[i].cond),
    ensures
        run_step(w, Step::Init(p), st).calls == st.calls,
        run_step(w, Step::Init(p), st).failure is None,
{
    let found = Run { bumps: found_bumps(w, p, st.bumps), ..st };
    lemma_checks_pass(w, p.reverify(), found);
}

/// The same for the step generated from a field's `if-needed` init
/// constraint: on an existing account that meets every re-verification check,
/// the field's creation step makes no call and succeeds.
pub proof fn lemma_generated_if_needed_idempotent(
    w: World,
    f: Field,
    c: ConstraintInitGroup,
    r: Result<Step, InternalError>,
    st: Run,
)
    requires
        is_init_step(f, c, r),
        r is Ok,
        c.if_needed,
        !(w.system_owned)(f.ident),
        st.failure is None,
        forall|i: int|
            0 <= i < r->Ok_0->Init_0.reverify().len() ==> (w.holds)(
                #[trigger] r->Ok_0->Init_0.reverify()[i].cond,
            ),
    ensures
        run_step(w, r->Ok_0, st).calls == st.calls,
        run_step(w, r->Ok_0, st).failure is None,
{
    lemma_if_needed_idempotent(w, r->Ok_0->Init_0, st);
}

/// Search mode is reproducible: two derivations from the same seeds under
/// the same program (a trailing comma aside) record the same address and
/// bump, that bump is the canonical one, and they decide alike for accounts
/// with the same key.
pub proof fn lemma_search_reproducible(
    w: World,
    f1: Field,
    c1: ConstraintSeedsGroup,
    s1: Step,
    f2: Field,
    c2: ConstraintSeedsGroup,
    s2: Step,
    st1: Run,
    st2: Run,
)
    requires
        canonical_derivation(w),
        is_seeds_step(f1, c1, s1),
        is_seeds_step(f2, c2, s2),
        !c1.is_init && c1.bump is None,
        !c2.is_init && c2.bump is None,
        without_trailing_comma(c1.seeds@) == without_trailing_comma(c2.seeds@),
        c1.program_seed == c2.program_seed,
        st1.failure is None,
        st2.failure is None,
    ensures
        run_step(w, s1, st1).bumps[f1.ident] == run_step(w, s2, st2).bumps[f2.ident],
        run_step(w, s1, st1).bumps[f1.ident] == (w.find)(
            without_trailing_comma(c1.seeds@),
            c1.program_seed,
        ),
        (w.create)(
            without_trailing_comma(c1.seeds@),
            run_step(w, s1, st1).bumps[f1.ident].1,
            c1.program_seed,
        ) == Some(run_step(w, s1, st1).bumps[f1.ident].0),
        (w.key)(f1.ident) == (w.key)(f2.ident) ==> (run_step(w, s1, st1).failure is None
            <==> run_step(w, s2, st2).failure is None),
{
    let _ = (w.find)(without_trailing_comma(c1.seeds@), c1.program_seed);
}

/// A trailing comma in a seed list changes nothing: the derived-address steps
/// of two seed lists that differ only by it run alike.
pub proof fn lemma_trailing_comma_ignored(
    w: World,
    f: Field,
    c1: ConstraintSeedsGroup,
    s1: Step,
    c2: ConstraintSeedsGroup,
    s2: Step,
    st: Run,
)
    requires
        is_seeds_step(f, c1, s1),
        is_seeds_step(f, c2, s2),
        c2 == (ConstraintSeedsGroup { seeds: c2.seeds, ..c1 }),
        without_trailing_comma(c1.seeds@) == c1.seeds@,
        c2.seeds@ == c1.seeds@ + seq![','],
    ensures
        run_step(w, s1, st) == run_step(w, s2, st),
{
    reveal_with_fuel(crate::generate::trim_end, 2);
    assert(c2.seeds@.drop_last() =~= c1.seeds@);
    assert(crate::generate::trim_end(c2.seeds@) == c2.seeds@);
    assert(without_trailing_comma(c2.seeds@) == c1.seeds@);
    if !c1.is_init {
        assert(derived_seeds(s1, c1.seeds)@ == derived_seeds(s2, c2.seeds)@);
    }
}

/// Verify mode fails, with the derived-address category, exactly when the
/// declared bump yields no valid address or one other than the account's key.
pub proof fn lemma_verify_mode(w: World, f: Field, c: ConstraintSeedsGroup, s: Step, st: Run)
    requires
        is_seeds_step(f, c, s),
        !c.is_init,
        c.bump is Some,
        st.failure is None,
    ensures
        run_step(w, s, st).failure is Some <==> match (w.create)(
            without_trailing_comma(c.seeds@),
            (w.bump)(c.bump->0),
            c.program_seed,
        ) {
            Some(a) => a != (w.key)(f.ident),
            None => true,
        },
        run_step(w, s, st).failure is Some ==> run_step(w, s, st).failure == Some(
            Abort::Check(fixed_failure(f.ident, ErrorCode::ConstraintSeeds)),
        ),
{
}

/// Verify mode rejects a non-canonical bump for an account at the canonical
/// address, when no lower bump derives that address too.
pub proof fn lemma_verify_rejects_non_canonical(
    w: World,
    f: Field,
    c: ConstraintSeedsGroup,
    s: Step,
    st: Run,
)
    requires
        canonical_derivation(w),
        is_seeds_step(f, c, s),
        !c.is_init,
        c.bump is Some,
        st.failure is None,
        0 <= (w.bump)(c.bump->0) <= 255,
        (w.bump)(c.bump->0) != (w.find)(without_trailing_comma(c.seeds@), c.program_seed).1,
        (w.key)(f.ident) == (w.find)(without_trailing_comma(c.seeds@), c.program_seed).0,
        forall|b: int|
            #[trigger] (w.create)(without_trailing_comma(c.seeds@), b, c.program_seed) == Some(
                (w.find)(without_trailing_comma(c.seeds@), c.program_seed).0,
            ) && b < (w.find)(without_trailing_comma(c.seeds@), c.program_seed).1 ==> false,
    ensures
        run_step(w, s, st).failure == Some(
            Abort::Check(fixed_failure(f.ident, ErrorCode::ConstraintSeeds)),
        ),
{
    let seeds = without_trailing_comma(c.seeds@);
    let b = (w.bump)(c.bump->0);
    let found = (w.find)(seeds, c.program_seed);
    if b > found.1 {
        assert((w.create)(seeds, b, c.program_seed) is None);
    } else {
        assert(b < found.1);
        assert((w.create)(seeds, b, c.program_seed) != Some(found.0));
    }
}

/// The two calls of a mint's creation on an account that holds no lamports.
pub open spec fn mint_calls(f: Field, c: ConstraintInitGroup) -> Seq<Call> {
    seq![
        Call::CreateAccount {
            payer: c.payer,
            field: f.ident,
            space: SpaceExpr::MintLen,
            owner: OwnerExpr::TokenProgram,
            signed: c.seeds is Some,
        },
        Call::InitializeMint {
            field: f.ident,
            decimals: c.kind->Mint_decimals,
            authority: c.kind->Mint_owner,
            freeze_authority: c.kind->Mint_freeze_authority,
        },
    ]
}

/// Mint creation on an account that holds no lamports (unconditional, or
/// `if-needed` on an account the system program still owns) makes exactly
/// two calls: one creation sized for a mint and owned by the token program,
/// then the mint's initialisation with the declared decimals, authority and
/// freeze authority. When both succeed and, under `if-needed`, the new mint
/// meets the re-verification checks, the step succeeds.
pub proof fn lemma_mint_creation(
    w: World,
    f: Field,
    c: ConstraintInitGroup,
    r: Result<Step, InternalError>,
    st: Run,
)
    requires
        is_init_step(f, c, r),
        c.kind is Mint,
        (w.unfunded)(f.ident),
        !c.if_needed || (w.system_owned)(f.ident),
        forall|i: int| 0 <= i < 2 ==> !(w.fails)(#[trigger] mint_calls(f, c)[i]),
        st.failure is None,
    ensures
        r is Ok,
        run_step(w, r->Ok_0, st).calls == st.calls + mint_calls(f, c),
        (forall|i: int|
            0 <= i < r->Ok_0->Init_0.reverify().len() ==> (w.holds)(
                #[trigger] r->Ok_0->Init_0.reverify()[i].cond,
            )) ==> run_step(w, r->Ok_0, st).failure is None,
        !c.if_needed ==> run_step(w, r->Ok_0, st).failure is None,
{
    let p = r->Ok_0->Init_0;
    assert(creation_calls(w, p) =~= mint_calls(f, c));
    let found = Run { bumps: found_bumps(w, p, st.bumps), ..st };
    lemma_issue_ok(w, mint_calls(f, c), found);
    let created = issue(w, creation_calls(w, p), found);
    lemma_checks_calls(w, p.reverify(), created);
    if forall|i: int|
        0 <= i < p.reverify().len() ==> (w.holds)(#[trigger] p.reverify()[i].cond) {
        lemma_checks_pass(w, p.reverify(), created);
    }
    if !c.if_needed {
        assert(p.reverify() =~= Seq::<Guard>::empty());
    }
}

} // verus!
