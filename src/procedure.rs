//! The synthesised procedure, as data: one step per linearised constraint.

use vstd::prelude::*;
use crate::model::{copy_text, Ty};

verus! {

/// The error categories of the generated procedure.
#[derive(Clone, Copy, Debug, PartialEq, Eq, Structural)]
pub enum ErrorCode {
    ConstraintZero,
    ConstraintMut,
    ConstraintHasOne,
    ConstraintSigner,
    Deprecated,
    ConstraintRaw,
    ConstraintOwner,
    ConstraintRentExempt,
    ConstraintSeeds,
    ConstraintExecutable,
    ConstraintState,
    ConstraintClose,
    ConstraintAddress,
    ConstraintAssociated,
    ConstraintTokenMint,
    ConstraintTokenOwner,
    ConstraintMintMintAuthority,
    ConstraintMintFreezeAuthority,
    ConstraintMintDecimals,
    ConstraintSpace,
    AccountNotAssociatedTokenAccount,
}

/// The error a failing check returns: a category, or the user's own error
/// expression.
#[derive(Clone, Debug, PartialEq, Eq)]
pub enum ErrorRef {
    Code(ErrorCode),
    Custom(String),
}

/// A failure of the generated procedure, tagged with the account's name.
#[derive(Clone, Debug, PartialEq, Eq)]
pub struct Failure {
    pub error: ErrorRef,
    pub account: String,
}

/// The space of an account being created.
#[derive(Clone, Debug, PartialEq, Eq)]
pub enum SpaceExpr {
    /// The size of a token account.
    TokenAccountLen,
    /// The size of a mint.
    MintLen,
    /// An explicit size expression.
    Explicit(String),
    /// Eight discriminator bytes plus the serialized default value of the type.
    Serialized(String),
    /// Eight discriminator bytes plus the byte image of the type's default value.
    ZeroCopy(String),
}

/// The program that owns an account once it is created.
#[derive(Clone, Debug, PartialEq, Eq)]
pub enum OwnerExpr {
    /// The program being executed.
    CurrentProgram,
    /// The token program.
    TokenProgram,
    /// An explicit program address expression.
    Explicit(String),
}

/// The predicate of a check; the check fails when it does not hold.
#[derive(Clone, Debug, PartialEq, Eq)]
pub enum Cond {
    /// The account is writable.
    Writable { field: String },
    /// The account signed the transaction (`wrapped`: through its account info).
    Signer { field: String, wrapped: bool },
    /// `field.target == target.key()` (`zero_copy`: the value is loaded first).
    HasOne { field: String, zero_copy: bool, target: String },
    /// A boolean expression.
    Expr { code: String },
    /// The account is owned by `owner`.
    Owner { field: String, owner: String },
    /// The account's balance is rent exempt for its size.
    RentExempt { field: String },
    /// The account is executable.
    Executable { field: String },
    /// The account is the state account of `program` for `account_ty`.
    StateAddress { field: String, account_ty: String, program: String },
    /// The account is owned by `program`.
    StateOwner { field: String, program: String },
    /// The account is not `target`.
    Distinct { field: String, target: String },
    /// The account's key is `address`.
    KeyIs { field: String, address: String },
    /// The token account is held by `wallet`.
    TokenOwner { field: String, wallet: String },
    /// The account is the associated token account of `wallet` for `mint`.
    Associated { field: String, wallet: String, mint: String },
    /// The account's discriminator is zero.
    Zeroed { field: String },
    /// The account's data is `space` long.
    SpaceIs { field: String, space: SpaceExpr },
    /// The account is owned by `owner`.
    CreatedOwner { field: String, owner: OwnerExpr },
    /// The account holds at least the rent-exempt minimum for `space`.
    Funded { field: String, space: SpaceExpr },
    /// The token account is for `mint`.
    TokenMint { field: String, mint: String },
    /// The mint's authority is `authority`.
    MintAuthority { field: String, authority: String },
    /// The mint's freeze authority is `freeze_authority` (none when absent).
    FreezeAuthority { field: String, freeze_authority: Option<String> },
    /// The mint has `decimals` decimals.
    Decimals { field: String, decimals: String },
}

/// `if !cond { return Err(fail) }`
#[derive(Clone, Debug, PartialEq, Eq)]
pub struct Guard {
    pub cond: Cond,
    pub fail: Failure,
}

/// How a derived-address constraint obtains the address it compares with.
#[derive(Clone, Debug, PartialEq, Eq)]
pub enum Derivation {
    /// Creation already searched the canonical address; compare with it, and
    /// with its bump when one is declared.
    FromInit { bump: Option<String> },
    /// Search the canonical address and bump of `seeds` under `program` (the
    /// current program when absent) and record the bump.
    Search { seeds: String, program: Option<String> },
    /// Compute the address of `seeds` and `bump` under `program`; the
    /// computation fails when no valid address results.
    Verify { seeds: String, bump: String, program: Option<String> },
}

/// The system-program creation of an account: funded to the rent-exempt
/// minimum, allocated and assigned, signed with `signer_seeds` and the found
/// bump when the account is a derived address.
#[derive(Clone, Debug, PartialEq, Eq)]
pub struct CreateAccount {
    pub field: String,
    pub space: SpaceExpr,
    pub owner: OwnerExpr,
    pub signer_seeds: Option<String>,
}

/// What creates and initialises the account.
#[derive(Clone, Debug, PartialEq, Eq)]
pub enum Creation {
    /// A program account: creation only.
    Program { account: CreateAccount },
    /// A token account: creation, then `initialize_account`.
    Token { account: CreateAccount, mint: String, authority: String },
    /// A mint: creation, then `initialize_mint`.
    Mint {
        account: CreateAccount,
        decimals: String,
        authority: String,
        freeze_authority: Option<String>,
    },
    /// An associated token account: one call to the associated token program.
    AssociatedToken { wallet: String, mint: String },
}

/// The conditional creation of an account and the re-verification that
/// follows it when creation was conditional.
#[derive(Clone, Debug, PartialEq, Eq)]
pub struct InitProcedure {
    pub field: String,
    pub ty: Ty,
    pub if_needed: bool,
    pub payer: String,
    /// The seeds of the canonical address that is searched first.
    pub pda_seeds: Option<String>,
    pub creation: Creation,
}

/// One step of the procedure: the code synthesised for one constraint.
#[derive(Clone, Debug, PartialEq, Eq)]
pub enum Step {
    /// Nothing to check.
    Skip,
    Check(Guard),
    /// Two checks, in this order.
    Both(Guard, Guard),
    /// A check in the deprecated literal form, with the advisory to surface.
    Deprecated { check: Guard, advisory: String },
    /// The zero-discriminator check, after which the account is read as `ty`.
    Zeroed { check: Guard, ty: Ty },
    /// A derived-address check of `field`; every mismatch fails with `fail`.
    Seeds { field: String, derivation: Derivation, fail: Failure },
    Init(InitProcedure),
}

/// The procedure of one field: the optional rent fetch, then its steps.
#[derive(Clone, Debug, PartialEq, Eq)]
pub struct Procedure {
    pub fetch_rent: bool,
    pub steps: Vec<Step>,
}

/// A violation of the front end's contract, found while generating.
#[derive(Clone, Copy, Debug, PartialEq, Eq, Structural)]
pub enum InternalError {
    /// A composite field carries a constraint other than raw or literal.
    CompositeConstraint,
    /// A signer constraint on a field whose type cannot be a signer.
    SignerNotAllowed,
    /// A state constraint on a field that is not a cross-program state.
    StateNotAllowed,
    /// A program account created without an explicit space on a field that
    /// holds no value type to size it by.
    UntypedInit,
}

impl SpaceExpr {
    pub fn duplicate(&self) -> (r: Self)
        ensures
            r == *self,
    {
        match self {
            SpaceExpr::TokenAccountLen => SpaceExpr::TokenAccountLen,
            SpaceExpr::MintLen => SpaceExpr::MintLen,
            SpaceExpr::Explicit(s) => SpaceExpr::Explicit(s.clone()),
            SpaceExpr::Serialized(s) => SpaceExpr::Serialized(s.clone()),
            SpaceExpr::ZeroCopy(s) => SpaceExpr::ZeroCopy(s.clone()),
        }
    }
}

impl OwnerExpr {
    pub fn duplicate(&self) -> (r: Self)
        ensures
            r == *self,
    {
        match self {
            OwnerExpr::CurrentProgram => OwnerExpr::CurrentProgram,
            OwnerExpr::TokenProgram => OwnerExpr::TokenProgram,
            OwnerExpr::Explicit(s) => OwnerExpr::Explicit(s.clone()),
        }
    }
}

pub open spec fn guard(cond: Cond, account: String, code: ErrorCode) -> Guard {
    Guard { cond, fail: Failure { error: ErrorRef::Code(code), account } }
}

fn make_guard(cond: Cond, account: &String, code: ErrorCode) -> (r: Guard)
    ensures
        r == guard(cond, *account, code),
{
    Guard { cond, fail: Failure { error: ErrorRef::Code(code), account: account.clone() } }
}

impl InitProcedure {
    /// The checks that follow a conditional creation: what the account must
    /// hold, whether it was just created or already existed. None follow an
    /// unconditional creation.
    pub open spec fn reverify(self) -> Seq<Guard> {
        let f = self.field;
        if !self.if_needed {
            seq![]
        } else {
            match self.creation {
                Creation::Program { account } => seq![
                    guard(Cond::SpaceIs { field: f, space: account.space }, f, ErrorCode::ConstraintSpace),
                    guard(Cond::CreatedOwner { field: f, owner: account.owner }, f, ErrorCode::ConstraintOwner),
                    guard(Cond::Funded { field: f, space: account.space }, f, ErrorCode::ConstraintRentExempt),
                ],
                Creation::Token { mint, authority, .. } => seq![
                    guard(Cond::TokenMint { field: f, mint }, f, ErrorCode::ConstraintTokenMint),
                    guard(Cond::TokenOwner { field: f, wallet: authority }, f, ErrorCode::ConstraintTokenOwner),
                ],
                Creation::AssociatedToken { wallet, mint } => seq![
                    guard(Cond::TokenMint { field: f, mint }, f, ErrorCode::ConstraintTokenMint),
                    guard(Cond::TokenOwner { field: f, wallet }, f, ErrorCode::ConstraintTokenOwner),
                    guard(
                        Cond::Associated { field: f, wallet, mint },
                        f,
                        ErrorCode::AccountNotAssociatedTokenAccount,
                    ),
                ],
                Creation::Mint { decimals, authority, freeze_authority, .. } => seq![
                    guard(
                        Cond::MintAuthority { field: f, authority },
                        f,
                        ErrorCode::ConstraintMintMintAuthority,
                    ),
                    guard(
                        Cond::FreezeAuthority { field: f, freeze_authority },
                        f,
                        ErrorCode::ConstraintMintFreezeAuthority,
                    ),
                    guard(Cond::Decimals { field: f, decimals }, f, ErrorCode::ConstraintMintDecimals),
                ],
            }
        }
    }

    pub fn reverification(&self) -> (r: Vec<Guard>)
        ensures
            r@ == self.reverify(),
    {
        let f = &self.field;
        let mut r: Vec<Guard> = Vec::new();
        if !self.if_needed {
            assert(r@ =~= self.reverify());
            return r;
        }
        match &self.creation {
            Creation::Program { account } => {
                r.push(make_guard(Cond::SpaceIs { field: f.clone(), space: account.space.duplicate() }, f, ErrorCode::ConstraintSpace));
                r.push(make_guard(Cond::CreatedOwner { field: f.clone(), owner: account.owner.duplicate() }, f, ErrorCode::ConstraintOwner));
                r.push(make_guard(Cond::Funded { field: f.clone(), space: account.space.duplicate() }, f, ErrorCode::ConstraintRentExempt));
            },
            Creation::Token { mint, authority, .. } => {
                r.push(make_guard(Cond::TokenMint { field: f.clone(), mint: mint.clone() }, f, ErrorCode::ConstraintTokenMint));
                r.push(make_guard(Cond::TokenOwner { field: f.clone(), wallet: authority.clone() }, f, ErrorCode::ConstraintTokenOwner));
            },
            Creation::AssociatedToken { wallet, mint } => {
                r.push(make_guard(Cond::TokenMint { field: f.clone(), mint: mint.clone() }, f, ErrorCode::ConstraintTokenMint));
                r.push(make_guard(Cond::TokenOwner { field: f.clone(), wallet: wallet.clone() }, f, ErrorCode::ConstraintTokenOwner));
                r.push(make_guard(
                    Cond::Associated { field: f.clone(), wallet: wallet.clone(), mint: mint.clone() },
                    f,
                    ErrorCode::AccountNotAssociatedTokenAccount,
                ));
            },
            Creation::Mint { decimals, authority, freeze_authority, .. } => {
                r.push(make_guard(Cond::MintAuthority { field: f.clone(), authority: authority.clone() }, f, ErrorCode::ConstraintMintMintAuthority));
                r.push(make_guard(
                    Cond::FreezeAuthority { field: f.clone(), freeze_authority: copy_text(freeze_authority) },
                    f,
                    ErrorCode::ConstraintMintFreezeAuthority,
                ));
                r.push(make_guard(Cond::Decimals { field: f.clone(), decimals: decimals.clone() }, f, ErrorCode::ConstraintMintDecimals));
            },
        }
        assert(r@ =~= self.reverify());
        r
    }
}

} // verus!
