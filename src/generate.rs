//! Synthesis: one step per linearised constraint, and the procedure of a field.

use vstd::prelude::*;
use vstd::string::{StrSliceExecFns, StringExecFns};
use crate::model::{
    copy_text, CompositeField, Constraint, ConstraintAddress, ConstraintAssociatedToken,
    ConstraintClose, ConstraintExecutable, ConstraintHasOne, ConstraintInitGroup,
    ConstraintLiteral, ConstraintMut, ConstraintOwner, ConstraintRaw, ConstraintRentExempt,
    ConstraintSeedsGroup, ConstraintSigner, ConstraintState, ConstraintZeroed, Field, InitKind, Ty,
};
use crate::procedure::{
    CreateAccount, Creation, Cond, Derivation, ErrorCode, ErrorRef, Failure, Guard, InitProcedure,
    InternalError, OwnerExpr, Procedure, SpaceExpr, Step,
};
use crate::linearize::{linearize, linearized};

verus! {

/// The failure of a check: the user's error expression when one is given,
/// else the category `code`.
pub open spec fn custom_failure(account: String, custom: Option<String>, code: ErrorCode) -> Failure {
    Failure {
        error: match custom {
            Some(e) => ErrorRef::Custom(e),
            None => ErrorRef::Code(code),
        },
        account,
    }
}

/// The failure of a check whose category cannot be overridden.
pub open spec fn fixed_failure(account: String, code: ErrorCode) -> Failure {
    Failure { error: ErrorRef::Code(code), account }
}

fn fixed(account: &String, code: ErrorCode) -> (r: Failure)
    ensures
        r == fixed_failure(*account, code),
{
    Failure { error: ErrorRef::Code(code), account: account.clone() }
}

/// Maps a check's failure to its category, or to the user's override.
pub fn generate_custom_error(
    account_name: &String,
    custom_error: &Option<String>,
    error: ErrorCode,
) -> (r: Failure)
    ensures
        r == custom_failure(*account_name, *custom_error, error),
{
    let account = account_name.clone();
    match custom_error {
        Some(e) => Failure { error: ErrorRef::Custom(e.clone()), account },
        None => Failure { error: ErrorRef::Code(error), account },
    }
}

pub open spec fn address_step(f: Field, c: ConstraintAddress) -> Step {
    Step::Check(
        Guard {
            cond: Cond::KeyIs { field: f.ident, address: c.address },
            fail: custom_failure(f.ident, c.error, ErrorCode::ConstraintAddress),
        },
    )
}

pub fn generate_constraint_address(f: &Field, c: &ConstraintAddress) -> (r: Step)
    ensures
        r == address_step(*f, *c),
{
    let fail = generate_custom_error(&f.ident, &c.error, ErrorCode::ConstraintAddress);
    Step::Check(Guard { cond: Cond::KeyIs { field: f.ident.clone(), address: c.address.clone() }, fail })
}

pub open spec fn zeroed_step(f: Field) -> Step {
    Step::Zeroed {
        check: Guard {
            cond: Cond::Zeroed { field: f.ident },
            fail: fixed_failure(f.ident, ErrorCode::ConstraintZero),
        },
        ty: f.ty,
    }
}

/// The account must still have a zero discriminator; it is then read as its
/// declared type.
pub fn generate_constraint_zeroed(f: &Field, _c: &ConstraintZeroed) -> (r: Step)
    ensures
        r == zeroed_step(*f),
{
    Step::Zeroed {
        check: Guard {
            cond: Cond::Zeroed { field: f.ident.clone() },
            fail: fixed(&f.ident, ErrorCode::ConstraintZero),
        },
        ty: f.ty.duplicate(),
    }
}

pub open spec fn close_step(f: Field, c: ConstraintClose) -> Step {
    Step::Check(
        Guard {
            cond: Cond::Distinct { field: f.ident, target: c.sol_dest },
            fail: fixed_failure(f.ident, ErrorCode::ConstraintClose),
        },
    )
}

/// An account cannot be closed into itself.
pub fn generate_constraint_close(f: &Field, c: &ConstraintClose) -> (r: Step)
    ensures
        r == close_step(*f, *c),
{
    Step::Check(
        Guard {
            cond: Cond::Distinct { field: f.ident.clone(), target: c.sol_dest.clone() },
            fail: fixed(&f.ident, ErrorCode::ConstraintClose),
        },
    )
}

pub open spec fn mut_step(f: Field, c: ConstraintMut) -> Step {
    Step::Check(
        Guard {
            cond: Cond::Writable { field: f.ident },
            fail: custom_failure(f.ident, c.error, ErrorCode::ConstraintMut),
        },
    )
}

pub fn generate_constraint_mut(f: &Field, c: &ConstraintMut) -> (r: Step)
    ensures
        r == mut_step(*f, *c),
{
    let fail = generate_custom_error(&f.ident, &c.error, ErrorCode::ConstraintMut);
    Step::Check(Guard { cond: Cond::Writable { field: f.ident.clone() }, fail })
}

pub open spec fn has_one_step(f: Field, c: ConstraintHasOne) -> Step {
    Step::Check(
        Guard {
            cond: Cond::HasOne {
                field: f.ident,
                zero_copy: f.ty.spec_is_zero_copy(),
                target: c.join_target,
            },
            fail: custom_failure(f.ident, c.error, ErrorCode::ConstraintHasOne),
        },
    )
}

pub fn generate_constraint_has_one(f: &Field, c: &ConstraintHasOne) -> (r: Step)
    ensures
        r == has_one_step(*f, *c),
{
    let fail = generate_custom_error(&f.ident, &c.error, ErrorCode::ConstraintHasOne);
    Step::Check(
        Guard {
            cond: Cond::HasOne {
                field: f.ident.clone(),
                zero_copy: f.ty.is_zero_copy(),
                target: c.join_target.clone(),
            },
            fail,
        },
    )
}

/// Whether a field of type `ty` may carry a signer constraint, and whether
/// its signer flag is read through its account info.
pub open spec fn signer_access(ty: Ty) -> Option<bool> {
    match ty {
        Ty::AccountInfo => Some(false),
        Ty::ProgramAccount(_) | Ty::Account(_) | Ty::Loader(_) | Ty::AccountLoader(_)
        | Ty::CpiAccount(_) => Some(true),
        _ => None,
    }
}

pub open spec fn signer_step(f: Field, c: ConstraintSigner) -> Result<Step, InternalError> {
    match signer_access(f.ty) {
        Some(wrapped) => Ok(
            Step::Check(
                Guard {
                    cond: Cond::Signer { field: f.ident, wrapped },
                    fail: custom_failure(f.ident, c.error, ErrorCode::ConstraintSigner),
                },
            ),
        ),
        None => Err(InternalError::SignerNotAllowed),
    }
}

pub fn generate_constraint_signer(f: &Field, c: &ConstraintSigner) -> (r: Result<
    Step,
    InternalError,
>)
    ensures
        r == signer_step(*f, *c),
{
    let wrapped = match f.ty {
        Ty::AccountInfo => false,
        Ty::ProgramAccount(_) | Ty::Account(_) | Ty::Loader(_) | Ty::AccountLoader(_)
        | Ty::CpiAccount(_) => true,
        _ => {
            return Err(InternalError::SignerNotAllowed);
        },
    };
    let fail = generate_custom_error(&f.ident, &c.error, ErrorCode::ConstraintSigner);
    Ok(Step::Check(Guard { cond: Cond::Signer { field: f.ident.clone(), wrapped }, fail }))
}

/// `s` without its double quotes.
pub open spec fn unquoted(s: Seq<char>) -> Seq<char> {
    s.filter(|ch: char| ch != '"')
}

fn remove_quotes(s: &String) -> (r: String)
    ensures
        r@ == unquoted(s@),
{
    let text = s.as_str();
    let n = text.unicode_len();
    let mut out = String::new();
    let mut i: usize = 0;
    while i < n
        invariant
            n == s@.len(),
            text@ == s@,
            i <= n,
            out@ == unquoted(s@.subrange(0, i as int)),
        decreases n - i,
    {
        let ch = text.get_char(i);
        if ch != '"' {
            out.append(text.substring_char(i, i + 1));
        }
        proof {
            let p = s@.subrange(0, i + 1);
            assert(p.drop_last() =~= s@.subrange(0, i as int));
            assert(p.last() == ch);
            reveal_with_fuel(Seq::filter, 1);
        }
        i = i + 1;
    }
    assert(s@.subrange(0, n as int) =~= s@);
    out
}

/// The advisory surfaced for a deprecated literal constraint.
pub open spec fn advisory_text(constraint: Seq<char>) -> Seq<char> {
    "Deprecated. Should be used with constraint: #[account(constraint = "@ + constraint + ")]"@
}

/// `r` is the step of a deprecated literal constraint `c` of the account
/// `ident`.
pub open spec fn is_literal_step(ident: String, c: ConstraintLiteral, r: Step) -> bool {
    r matches Step::Deprecated { check, advisory } && check.cond matches Cond::Expr { code }
        && code@ == unquoted(c.lit@) && check.fail == fixed_failure(ident, ErrorCode::Deprecated)
        && advisory@ == advisory_text(unquoted(c.lit@))
}

/// The deprecated literal form: the check of the expression in the literal,
/// which always fails as `Deprecated`, and an advisory that names the
/// replacement form.
pub fn generate_constraint_literal(ident: &String, c: &ConstraintLiteral) -> (r: Step)
    ensures
        is_literal_step(*ident, *c, r),
{
    let constraint = remove_quotes(&c.lit);
    let mut message = String::from_str("Deprecated. Should be used with constraint: #[account(constraint = ");
    message.append(constraint.as_str());
    message.append(")]");
    Step::Deprecated {
        check: Guard {
            cond: Cond::Expr { code: constraint },
            fail: fixed(ident, ErrorCode::Deprecated),
        },
        advisory: message,
    }
}

pub open spec fn raw_step(ident: String, c: ConstraintRaw) -> Step {
    Step::Check(
        Guard {
            cond: Cond::Expr { code: c.raw },
            fail: custom_failure(ident, c.error, ErrorCode::ConstraintRaw),
        },
    )
}

pub fn generate_constraint_raw(ident: &String, c: &ConstraintRaw) -> (r: Step)
    ensures
        r == raw_step(*ident, *c),
{
    let fail = generate_custom_error(ident, &c.error, ErrorCode::ConstraintRaw);
    Step::Check(Guard { cond: Cond::Expr { code: c.raw.clone() }, fail })
}

pub open spec fn owner_step(f: Field, c: ConstraintOwner) -> Step {
    Step::Check(
        Guard {
            cond: Cond::Owner { field: f.ident, owner: c.owner_address },
            fail: custom_failure(f.ident, c.error, ErrorCode::ConstraintOwner),
        },
    )
}

pub fn generate_constraint_owner(f: &Field, c: &ConstraintOwner) -> (r: Step)
    ensures
        r == owner_step(*f, *c),
{
    let fail = generate_custom_error(&f.ident, &c.error, ErrorCode::ConstraintOwner);
    Step::Check(
        Guard { cond: Cond::Owner { field: f.ident.clone(), owner: c.owner_address.clone() }, fail },
    )
}

pub open spec fn rent_exempt_step(f: Field, c: ConstraintRentExempt) -> Step {
    match c {
        ConstraintRentExempt::Skip => Step::Skip,
        ConstraintRentExempt::Enforce => Step::Check(
            Guard {
                cond: Cond::RentExempt { field: f.ident },
                fail: fixed_failure(f.ident, ErrorCode::ConstraintRentExempt),
            },
        ),
    }
}

pub fn generate_constraint_rent_exempt(f: &Field, c: &ConstraintRentExempt) -> (r: Step)
    ensures
        r == rent_exempt_step(*f, *c),
{
    match c {
        ConstraintRentExempt::Skip => Step::Skip,
        ConstraintRentExempt::Enforce => Step::Check(
            Guard {
                cond: Cond::RentExempt { field: f.ident.clone() },
                fail: fixed(&f.ident, ErrorCode::ConstraintRentExempt),
            },
        ),
    }
}

pub open spec fn executable_step(f: Field) -> Step {
    Step::Check(
        Guard {
            cond: Cond::Executable { field: f.ident },
            fail: fixed_failure(f.ident, ErrorCode::ConstraintExecutable),
        },
    )
}

pub fn generate_constraint_executable(f: &Field, _c: &ConstraintExecutable) -> (r: Step)
    ensures
        r == executable_step(*f),
{
    Step::Check(
        Guard {
            cond: Cond::Executable { field: f.ident.clone() },
            fail: fixed(&f.ident, ErrorCode::ConstraintExecutable),
        },
    )
}

pub open spec fn state_step(f: Field, c: ConstraintState) -> Result<Step, InternalError> {
    match f.ty {
        Ty::CpiState(account_ty) => Ok(
            Step::Both(
                Guard {
                    cond: Cond::StateAddress {
                        field: f.ident,
                        account_ty,
                        program: c.program_target,
                    },
                    fail: fixed_failure(f.ident, ErrorCode::ConstraintState),
                },
                Guard {
                    cond: Cond::StateOwner { field: f.ident, program: c.program_target },
                    fail: fixed_failure(f.ident, ErrorCode::ConstraintState),
                },
            ),
        ),
        _ => Err(InternalError::StateNotAllowed),
    }
}

/// The account must be the canonical state account of the target program,
/// and owned by it.
pub fn generate_constraint_state(f: &Field, c: &ConstraintState) -> (r: Result<
    Step,
    InternalError,
>)
    ensures
        r == state_step(*f, *c),
{
    let account_ty = match &f.ty {
        Ty::CpiState(ty) => ty.clone(),
        _ => {
            return Err(InternalError::StateNotAllowed);
        },
    };
    Ok(
        Step::Both(
            Guard {
                cond: Cond::StateAddress {
                    field: f.ident.clone(),
                    account_ty,
                    program: c.program_target.clone(),
                },
                fail: fixed(&f.ident, ErrorCode::ConstraintState),
            },
            Guard {
                cond: Cond::StateOwner { field: f.ident.clone(), program: c.program_target.clone() },
                fail: fixed(&f.ident, ErrorCode::ConstraintState),
            },
        ),
    )
}

pub open spec fn associated_token_step(f: Field, c: ConstraintAssociatedToken) -> Step {
    Step::Both(
        Guard {
            cond: Cond::TokenOwner { field: f.ident, wallet: c.wallet },
            fail: fixed_failure(f.ident, ErrorCode::ConstraintTokenOwner),
        },
        Guard {
            cond: Cond::Associated { field: f.ident, wallet: c.wallet, mint: c.mint },
            fail: fixed_failure(f.ident, ErrorCode::ConstraintAssociated),
        },
    )
}

/// The token account must be held by the wallet and sit at the wallet's
/// associated address for the mint.
pub fn generate_constraint_associated_token(f: &Field, c: &ConstraintAssociatedToken) -> (r: Step)
    ensures
        r == associated_token_step(*f, *c),
{
    Step::Both(
        Guard {
            cond: Cond::TokenOwner { field: f.ident.clone(), wallet: c.wallet.clone() },
            fail: fixed(&f.ident, ErrorCode::ConstraintTokenOwner),
        },
        Guard {
            cond: Cond::Associated {
                field: f.ident.clone(),
                wallet: c.wallet.clone(),
                mint: c.mint.clone(),
            },
            fail: fixed(&f.ident, ErrorCode::ConstraintAssociated),
        },
    )
}

/// Whitespace that may end a seed list.
pub open spec fn is_blank(ch: char) -> bool {
    ch == ' ' || ch == '\n' || ch == '\t' || ch == '\r'
}

/// `s` without its trailing whitespace.
pub open spec fn trim_end(s: Seq<char>) -> Seq<char>
    decreases s.len(),
{
    if s.len() > 0 && is_blank(s.last()) {
        trim_end(s.drop_last())
    } else {
        s
    }
}

/// A seed list with its trailing comma (if any) removed, ready to be
/// followed by further seeds.
pub open spec fn without_trailing_comma(s: Seq<char>) -> Seq<char> {
    let t = trim_end(s);
    if t.len() > 0 && t.last() == ',' {
        t.drop_last()
    } else {
        s
    }
}

/// Drops one trailing comma from a seed list.
pub fn seed_list(seeds: &String) -> (r: String)
    ensures
        r@ == without_trailing_comma(seeds@),
{
    let text = seeds.as_str();
    let n = text.unicode_len();
    let mut k: usize = n;
    assert(seeds@.subrange(0, n as int) =~= seeds@);
    loop
        invariant
            n == seeds@.len(),
            text@ == seeds@,
            k <= n,
            trim_end(seeds@) == trim_end(seeds@.subrange(0, k as int)),
        ensures
            k == 0 || !is_blank(seeds@[k - 1]),
        decreases k,
    {
        if k == 0 {
            break;
        }
        let ch = text.get_char(k - 1);
        if !(ch == ' ' || ch == '\n' || ch == '\t' || ch == '\r') {
            break;
        }
        assert(seeds@.subrange(0, k as int).drop_last() =~= seeds@.subrange(0, k - 1));
        k = k - 1;
    }
    assert(seeds@.subrange(0, n as int) =~= seeds@);
    proof {
        reveal_with_fuel(trim_end, 1);
    }
    if k > 0 && text.get_char(k - 1) == ',' {
        assert(seeds@.subrange(0, k as int).drop_last() =~= seeds@.subrange(0, k - 1));
        String::from_str(text.substring_char(0, k - 1))
    } else {
        seeds.clone()
    }
}

/// The derivation of `c`, with `seeds` standing for its seed list.
pub open spec fn derivation_of(c: ConstraintSeedsGroup, seeds: String) -> Derivation {
    if c.is_init {
        Derivation::FromInit { bump: c.bump }
    } else {
        match c.bump {
            None => Derivation::Search { seeds, program: c.program_seed },
            Some(b) => Derivation::Verify { seeds, bump: b, program: c.program_seed },
        }
    }
}

pub open spec fn seeds_step(f: Field, c: ConstraintSeedsGroup, seeds: String) -> Step {
    Step::Seeds {
        field: f.ident,
        derivation: derivation_of(c, seeds),
        fail: fixed_failure(f.ident, ErrorCode::ConstraintSeeds),
    }
}

/// The seed list a derived-address step carries (`other` when it carries none).
pub open spec fn derived_seeds(s: Step, other: String) -> String {
    match s {
        Step::Seeds { derivation: Derivation::Search { seeds, .. }, .. } => seeds,
        Step::Seeds { derivation: Derivation::Verify { seeds, .. }, .. } => seeds,
        _ => other,
    }
}

/// `r` is the derived-address step of `c` on `f`: its seed list is the
/// declared one without a trailing comma.
pub open spec fn is_seeds_step(f: Field, c: ConstraintSeedsGroup, r: Step) -> bool {
    &&& r == seeds_step(f, c, derived_seeds(r, c.seeds))
    &&& !c.is_init ==> derived_seeds(r, c.seeds)@ == without_trailing_comma(c.seeds@)
}

/// The derived-address check: against the address creation found, or
/// standalone in search mode (no bump declared) or verify mode.
pub fn generate_constraint_seeds(f: &Field, c: &ConstraintSeedsGroup) -> (r: Step)
    ensures
        is_seeds_step(*f, *c, r),
{
    let derivation = if c.is_init {
        Derivation::FromInit { bump: copy_text(&c.bump) }
    } else {
        match &c.bump {
            None => Derivation::Search { seeds: seed_list(&c.seeds), program: copy_text(&c.program_seed) },
            Some(b) => Derivation::Verify {
                seeds: seed_list(&c.seeds),
                bump: b.clone(),
                program: copy_text(&c.program_seed),
            },
        }
    };
    Step::Seeds { field: f.ident.clone(), derivation, fail: fixed(&f.ident, ErrorCode::ConstraintSeeds) }
}

pub open spec fn create_account_spec(
    field: String,
    space: SpaceExpr,
    owner: OwnerExpr,
    seeds: Option<String>,
) -> CreateAccount {
    CreateAccount { field, space, owner, signer_seeds: seeds }
}

/// The system-program creation of `field` with `space` bytes, owned by
/// `owner`, signed with `seeds_with_nonce` when the account is a derived
/// address.
pub fn generate_create_account(
    field: &String,
    space: SpaceExpr,
    owner: OwnerExpr,
    seeds_with_nonce: Option<String>,
) -> (r: CreateAccount)
    ensures
        r == create_account_spec(*field, space, owner, seeds_with_nonce),
{
    CreateAccount { field: field.clone(), space, owner, signer_seeds: seeds_with_nonce }
}

/// The value type held by a typed wrapper.
pub open spec fn value_type(ty: Ty) -> Option<String> {
    match ty {
        Ty::ProgramState(p) | Ty::CpiState(p) | Ty::ProgramAccount(p) | Ty::Loader(p)
        | Ty::AccountLoader(p) | Ty::CpiAccount(p) | Ty::Account(p) => Some(p),
        _ => None,
    }
}

/// The size of a program account: the explicit size, else eight
/// discriminator bytes plus the size of the default value of its type.
pub open spec fn program_space(ty: Ty, space: Option<String>) -> Option<SpaceExpr> {
    match space {
        Some(s) => Some(SpaceExpr::Explicit(s)),
        None => match value_type(ty) {
            Some(p) => Some(
                if ty.spec_is_zero_copy() {
                    SpaceExpr::ZeroCopy(p)
                } else {
                    SpaceExpr::Serialized(p)
                },
            ),
            None => None,
        },
    }
}

/// `t` is the seed list of the derived address, without a trailing comma,
/// when there is one.
pub open spec fn trims_to(s: Option<ConstraintSeedsGroup>, t: Option<String>) -> bool {
    match (s, t) {
        (None, None) => true,
        (Some(g), Some(t)) => t@ == without_trailing_comma(g.seeds@),
        _ => false,
    }
}

/// The creation of `c` on `f`, with `seeds` standing for the seed list of
/// the derived address.
pub open spec fn creation_of(f: Field, c: ConstraintInitGroup, seeds: Option<String>) -> Result<Creation, InternalError> {
    match c.kind {
        InitKind::Token { owner, mint } => Ok(
            Creation::Token {
                account: create_account_spec(
                    f.ident,
                    SpaceExpr::TokenAccountLen,
                    OwnerExpr::TokenProgram,
                    seeds,
                ),
                mint,
                authority: owner,
            },
        ),
        InitKind::AssociatedToken { owner, mint } => Ok(
            Creation::AssociatedToken { wallet: owner, mint },
        ),
        InitKind::Mint { owner, freeze_authority, decimals } => Ok(
            Creation::Mint {
                account: create_account_spec(
                    f.ident,
                    SpaceExpr::MintLen,
                    OwnerExpr::TokenProgram,
                    seeds,
                ),
                decimals,
                authority: owner,
                freeze_authority,
            },
        ),
        InitKind::Program { owner } => match program_space(f.ty, c.space) {
            Some(space) => Ok(
                Creation::Program {
                    account: create_account_spec(
                        f.ident,
                        space,
                        match owner {
                            Some(o) => OwnerExpr::Explicit(o),
                            None => OwnerExpr::CurrentProgram,
                        },
                        seeds,
                    ),
                },
            ),
            None => Err(InternalError::UntypedInit),
        },
    }
}

pub open spec fn init_step(f: Field, c: ConstraintInitGroup, seeds: Option<String>) -> Result<
    Step,
    InternalError,
> {
    match creation_of(f, c, seeds) {
        Ok(creation) => Ok(
            Step::Init(
                InitProcedure {
                    field: f.ident,
                    ty: f.ty,
                    if_needed: c.if_needed,
                    payer: c.payer,
                    pda_seeds: seeds,
                    creation,
                },
            ),
        ),
        Err(e) => Err(e),
    }
}

/// The seed list an init step carries.
pub open spec fn planned_seeds(r: Result<Step, InternalError>) -> Option<String> {
    match r {
        Ok(Step::Init(p)) => p.pda_seeds,
        _ => None,
    }
}

/// `r` is the init step of `c` on `f`: a derived address's seed list is the
/// declared one without a trailing comma.
pub open spec fn is_init_step(f: Field, c: ConstraintInitGroup, r: Result<Step, InternalError>) -> bool {
    &&& r == init_step(f, c, planned_seeds(r))
    &&& r is Ok ==> trims_to(c.seeds, planned_seeds(r))
}

fn generate_program_space(f: &Field, space: &Option<String>) -> (r: Option<SpaceExpr>)
    ensures
        r == program_space(f.ty, *space),
{
    match space {
        Some(s) => Some(SpaceExpr::Explicit(s.clone())),
        None => {
            let p = match &f.ty {
                Ty::ProgramState(p) | Ty::CpiState(p) | Ty::ProgramAccount(p) | Ty::Loader(p)
                | Ty::AccountLoader(p) | Ty::CpiAccount(p) | Ty::Account(p) => p.clone(),
                _ => {
                    return None;
                },
            };
            if f.ty.is_zero_copy() {
                Some(SpaceExpr::ZeroCopy(p))
            } else {
                Some(SpaceExpr::Serialized(p))
            }
        },
    }
}

fn generate_constraint_init_group(f: &Field, c: &ConstraintInitGroup) -> (r: Result<
    Step,
    InternalError,
>)
    ensures
        is_init_step(*f, *c, r),
{
    let seeds = match &c.seeds {
        Some(g) => Some(seed_list(&g.seeds)),
        None => None,
    };
    let creation = match &c.kind {
        InitKind::Token { owner, mint } => Creation::Token {
            account: generate_create_account(
                &f.ident,
                SpaceExpr::TokenAccountLen,
                OwnerExpr::TokenProgram,
                copy_text(&seeds),
            ),
            mint: mint.clone(),
            authority: owner.clone(),
        },
        InitKind::AssociatedToken { owner, mint } => Creation::AssociatedToken {
            wallet: owner.clone(),
            mint: mint.clone(),
        },
        InitKind::Mint { owner, freeze_authority, decimals } => Creation::Mint {
            account: generate_create_account(
                &f.ident,
                SpaceExpr::MintLen,
                OwnerExpr::TokenProgram,
                copy_text(&seeds),
            ),
            decimals: decimals.clone(),
            authority: owner.clone(),
            freeze_authority: copy_text(freeze_authority),
        },
        InitKind::Program { owner } => {
            let space = match generate_program_space(f, &c.space) {
                Some(s) => s,
                None => {
                    return Err(InternalError::UntypedInit);
                },
            };
            let owner = match owner {
                Some(o) => OwnerExpr::Explicit(o.clone()),
                None => OwnerExpr::CurrentProgram,
            };
            Creation::Program {
                account: generate_create_account(&f.ident, space, owner, copy_text(&seeds)),
            }
        },
    };
    Ok(
        Step::Init(
            InitProcedure {
                field: f.ident.clone(),
                ty: f.ty.duplicate(),
                if_needed: c.if_needed,
                payer: c.payer.clone(),
                pda_seeds: seeds,
                creation,
            },
        ),
    )
}

/// The creation of the account, conditional under `if_needed`, followed by
/// the re-verification of what an existing account holds.
pub fn generate_constraint_init(f: &Field, c: &ConstraintInitGroup) -> (r: Result<
    Step,
    InternalError,
>)
    ensures
        is_init_step(*f, *c, r),
{
    generate_constraint_init_group(f, c)
}

/// `r` is what generation makes of the constraint `c` on the field `f`.
pub open spec fn is_step(f: Field, c: Constraint, r: Result<Step, InternalError>) -> bool {
    match c {
        Constraint::Init(c) => is_init_step(f, c, r),
        Constraint::Zeroed(_) => r == Ok::<Step, InternalError>(zeroed_step(f)),
        Constraint::Mut(c) => r == Ok::<Step, InternalError>(mut_step(f, c)),
        Constraint::HasOne(c) => r == Ok::<Step, InternalError>(has_one_step(f, c)),
        Constraint::Signer(c) => r == signer_step(f, c),
        Constraint::Literal(c) => r matches Ok(s) && is_literal_step(f.ident, c, s),
        Constraint::Raw(c) => r == Ok::<Step, InternalError>(raw_step(f.ident, c)),
        Constraint::Owner(c) => r == Ok::<Step, InternalError>(owner_step(f, c)),
        Constraint::RentExempt(c) => r == Ok::<Step, InternalError>(rent_exempt_step(f, c)),
        Constraint::Seeds(c) => r matches Ok(s) && is_seeds_step(f, c, s),
        Constraint::Executable(_) => r == Ok::<Step, InternalError>(executable_step(f)),
        Constraint::State(c) => r == state_step(f, c),
        Constraint::Close(c) => r == Ok::<Step, InternalError>(close_step(f, c)),
        Constraint::Address(c) => r == Ok::<Step, InternalError>(address_step(f, c)),
        Constraint::AssociatedToken(c) => r == Ok::<Step, InternalError>(
            associated_token_step(f, c),
        ),
    }
}

/// The contract violation that generating `c` on `f` reports, if any.
pub open spec fn step_error(f: Field, c: Constraint) -> Option<InternalError> {
    match c {
        Constraint::Init(c) => match init_step(f, c, None) {
            Err(e) => Some(e),
            Ok(_) => None,
        },
        Constraint::Signer(c) => match signer_step(f, c) {
            Err(e) => Some(e),
            Ok(_) => None,
        },
        Constraint::State(c) => match state_step(f, c) {
            Err(e) => Some(e),
            Ok(_) => None,
        },
        _ => None,
    }
}

fn generate_constraint(f: &Field, c: &Constraint) -> (r: Result<Step, InternalError>)
    ensures
        is_step(*f, *c, r),
        r is Err <==> step_error(*f, *c) is Some,
        r matches Err(e) ==> step_error(*f, *c) == Some(e),
{
    match c {
        Constraint::Init(c) => generate_constraint_init(f, c),
        Constraint::Zeroed(c) => Ok(generate_constraint_zeroed(f, c)),
        Constraint::Mut(c) => Ok(generate_constraint_mut(f, c)),
        Constraint::HasOne(c) => Ok(generate_constraint_has_one(f, c)),
        Constraint::Signer(c) => generate_constraint_signer(f, c),
        Constraint::Literal(c) => Ok(generate_constraint_literal(&f.ident, c)),
        Constraint::Raw(c) => Ok(generate_constraint_raw(&f.ident, c)),
        Constraint::Owner(c) => Ok(generate_constraint_owner(f, c)),
        Constraint::RentExempt(c) => Ok(generate_constraint_rent_exempt(f, c)),
        Constraint::Seeds(c) => Ok(generate_constraint_seeds(f, c)),
        Constraint::Executable(c) => Ok(generate_constraint_executable(f, c)),
        Constraint::State(c) => generate_constraint_state(f, c),
        Constraint::Close(c) => Ok(generate_constraint_close(f, c)),
        Constraint::Address(c) => Ok(generate_constraint_address(f, c)),
        Constraint::AssociatedToken(c) => Ok(generate_constraint_associated_token(f, c)),
    }
}

/// `r` is what generation makes of the constraint `c` on a composite field
/// named `ident`: only raw and literal constraints may stand there.
pub open spec fn is_composite_step(ident: String, c: Constraint, r: Result<Step, InternalError>) -> bool {
    match c {
        Constraint::Raw(c) => r == Ok::<Step, InternalError>(raw_step(ident, c)),
        Constraint::Literal(c) => r matches Ok(s) && is_literal_step(ident, c, s),
        _ => r == Err::<Step, InternalError>(InternalError::CompositeConstraint),
    }
}

fn generate_constraint_composite(f: &CompositeField, c: &Constraint) -> (r: Result<
    Step,
    InternalError,
>)
    ensures
        is_composite_step(f.ident, *c, r),
{
    match c {
        Constraint::Raw(c) => Ok(generate_constraint_raw(&f.ident, c)),
        Constraint::Literal(c) => Ok(generate_constraint_literal(&f.ident, c)),
        _ => Err(InternalError::CompositeConstraint),
    }
}

/// The group requests an enforced rent-exemption check.
pub open spec fn enforces_rent(lin: Seq<Constraint>) -> bool {
    exists|i: int| 0 <= i < lin.len() && lin[i] == Constraint::RentExempt(ConstraintRentExempt::Enforce)
}

/// The procedure of a leaf field: a rent fetch when a constraint enforces
/// rent exemption, then one step per linearised constraint, in order. The
/// first constraint that violates the front end's contract aborts generation.
pub fn generate(f: &Field) -> (r: Result<Procedure, InternalError>)
    ensures
        (r is Ok) <==> (forall|i: int|
            0 <= i < linearized(f.constraints).len() ==> step_error(*f, #[trigger] linearized(f.constraints)[i]) is None),
        r matches Ok(p) ==> {
            &&& p.fetch_rent == enforces_rent(linearized(f.constraints))
            &&& p.steps@.len() == linearized(f.constraints).len()
            &&& forall|i: int| 0 <= i < p.steps@.len() ==> is_step(*f, linearized(f.constraints)[i], Ok(#[trigger] p.steps@[i]))
        },
        r matches Err(e) ==> exists|i: int| {
            &&& 0 <= i < linearized(f.constraints).len()
            &&& step_error(*f, #[trigger] linearized(f.constraints)[i]) == Some(e)
            &&& forall|j: int| 0 <= j < i ==> step_error(*f, #[trigger] linearized(f.constraints)[j]) is None
        },
{
    let constraints = linearize(&f.constraints);
    let ghost lin = linearized(f.constraints);
    let mut rent = false;
    let mut steps: Vec<Step> = Vec::new();
    let mut i: usize = 0;
    while i < constraints.len()
        invariant
            constraints@ == lin,
            lin == linearized(f.constraints),
            i <= constraints.len(),
            steps@.len() == i,
            rent == (exists|k: int| 0 <= k < i && lin[k] == Constraint::RentExempt(ConstraintRentExempt::Enforce)),
            forall|k: int| 0 <= k < i ==> is_step(*f, lin[k], Ok(#[trigger] steps@[k])),
            forall|k: int| 0 <= k < i ==> step_error(*f, #[trigger] lin[k]) is None,
        decreases constraints.len() - i,
    {
        let c = &constraints[i];
        if let Constraint::RentExempt(ConstraintRentExempt::Enforce) = c {
            rent = true;
        }
        match generate_constraint(f, c) {
            Ok(s) => steps.push(s),
            Err(e) => {
                assert(step_error(*f, lin[i as int]) == Some(e));
                assert(!(step_error(*f, linearized(f.constraints)[i as int]) is None));
                return Err(e);
            },
        }
        i = i + 1;
    }
    Ok(Procedure { fetch_rent: rent, steps })
}

/// The checks of a composite field, in linearised order; any constraint other
/// than raw or literal is a contract violation that aborts generation.
pub fn generate_composite(f: &CompositeField) -> (r: Result<Vec<Step>, InternalError>)
    ensures
        (r is Ok) <==> (forall|i: int| 0 <= i < linearized(f.constraints).len() ==>
            (#[trigger] linearized(f.constraints)[i] is Raw || linearized(f.constraints)[i] is Literal)),
        r matches Err(e) ==> e == InternalError::CompositeConstraint,
        r matches Ok(v) ==> {
            &&& v@.len() == linearized(f.constraints).len()
            &&& forall|i: int| 0 <= i < v@.len() ==> is_composite_step(f.ident, linearized(f.constraints)[i], Ok(#[trigger] v@[i]))
        },
{
    let constraints = linearize(&f.constraints);
    let ghost lin = linearized(f.constraints);
    let mut steps: Vec<Step> = Vec::new();
    let mut i: usize = 0;
    while i < constraints.len()
        invariant
            constraints@ == lin,
            lin == linearized(f.constraints),
            i <= constraints.len(),
            steps@.len() == i,
            forall|k: int| 0 <= k < i ==> is_composite_step(f.ident, lin[k], Ok(#[trigger] steps@[k])),
            forall|k: int| 0 <= k < i ==> (#[trigger] lin[k] is Raw || lin[k] is Literal),
        decreases constraints.len() - i,
    {
        match generate_constraint_composite(f, &constraints[i]) {
            Ok(s) => steps.push(s),
            Err(e) => {
                assert(!(linearized(f.constraints)[i as int] is Raw || linearized(
                    f.constraints,
                )[i as int] is Literal));
                return Err(e);
            },
        }
        i = i + 1;
    }
    Ok(steps)
}

} // verus!
