//! The declarative input: one constraint group per account field.

use vstd::prelude::*;

verus! {

/// Duplicates an optional piece of source text.
pub fn copy_text(o: &Option<String>) -> (r: Option<String>)
    ensures
        r == *o,
{
    match o {
        Some(s) => Some(s.clone()),
        None => None,
    }
}

/// How an account field is represented in the context structure; typed
/// wrappers carry the path of the value type they hold.
#[derive(Clone, Debug, PartialEq, Eq)]
pub enum Ty {
    AccountInfo,
    UncheckedAccount,
    ProgramState(String),
    CpiState(String),
    ProgramAccount(String),
    Loader(String),
    AccountLoader(String),
    CpiAccount(String),
    Sysvar(String),
    Account(String),
    Program(String),
    Signer,
}

impl Ty {
    pub fn duplicate(&self) -> (r: Ty)
        ensures
            r == *self,
    {
        match self {
            Ty::AccountInfo => Ty::AccountInfo,
            Ty::UncheckedAccount => Ty::UncheckedAccount,
            Ty::ProgramState(p) => Ty::ProgramState(p.clone()),
            Ty::CpiState(p) => Ty::CpiState(p.clone()),
            Ty::ProgramAccount(p) => Ty::ProgramAccount(p.clone()),
            Ty::Loader(p) => Ty::Loader(p.clone()),
            Ty::AccountLoader(p) => Ty::AccountLoader(p.clone()),
            Ty::CpiAccount(p) => Ty::CpiAccount(p.clone()),
            Ty::Sysvar(p) => Ty::Sysvar(p.clone()),
            Ty::Account(p) => Ty::Account(p.clone()),
            Ty::Program(p) => Ty::Program(p.clone()),
            Ty::Signer => Ty::Signer,
        }
    }

    /// Zero-copy wrappers, whose value is reached through `load()`.
    pub open spec fn spec_is_zero_copy(&self) -> bool {
        self is Loader || self is AccountLoader
    }

    #[verifier::when_used_as_spec(spec_is_zero_copy)]
    pub fn is_zero_copy(&self) -> (r: bool)
        ensures
            r == self.spec_is_zero_copy(),
    {
        match self {
            Ty::Loader(_) | Ty::AccountLoader(_) => true,
            _ => false,
        }
    }
}

/// The initialisation protocol of a created account.
#[derive(Clone, Debug, PartialEq, Eq)]
#[allow(inconsistent_fields)]
pub enum InitKind {
    /// An account of the current program (or of `owner`, when given).
    Program { owner: Option<String> },
    /// A token account for `mint`, held by `owner`.
    Token { owner: String, mint: String },
    /// The associated token account of the wallet `owner` for `mint`.
    AssociatedToken { owner: String, mint: String },
    /// A mint with the given decimals, mint authority and freeze authority.
    Mint { owner: String, freeze_authority: Option<String>, decimals: String },
}

impl InitKind {
    pub fn duplicate(&self) -> (r: InitKind)
        ensures
            r == *self,
    {
        match self {
            InitKind::Program { owner } => InitKind::Program { owner: copy_text(owner) },
            InitKind::Token { owner, mint } => InitKind::Token {
                owner: owner.clone(),
                mint: mint.clone(),
            },
            InitKind::AssociatedToken { owner, mint } => InitKind::AssociatedToken {
                owner: owner.clone(),
                mint: mint.clone(),
            },
            InitKind::Mint { owner, freeze_authority, decimals } => InitKind::Mint {
                owner: owner.clone(),
                freeze_authority: copy_text(freeze_authority),
                decimals: decimals.clone(),
            },
        }
    }
}

/// A derived-address constraint. `seeds` is the comma-separated list of seed
/// expressions (possibly empty); `program_seed` overrides the deriving program.
#[derive(Clone, Debug, PartialEq, Eq)]
pub struct ConstraintSeedsGroup {
    pub is_init: bool,
    pub seeds: String,
    pub bump: Option<String>,
    pub program_seed: Option<String>,
}

impl ConstraintSeedsGroup {
    pub fn duplicate(&self) -> (r: Self)
        ensures
            r == *self,
    {
        ConstraintSeedsGroup {
            is_init: self.is_init,
            seeds: self.seeds.clone(),
            bump: copy_text(&self.bump),
            program_seed: copy_text(&self.program_seed),
        }
    }
}

/// Creation of the account, unconditionally or only when it does not exist yet.
#[derive(Clone, Debug, PartialEq, Eq)]
pub struct ConstraintInitGroup {
    pub if_needed: bool,
    pub seeds: Option<ConstraintSeedsGroup>,
    pub payer: String,
    pub space: Option<String>,
    pub kind: InitKind,
}

impl ConstraintInitGroup {
    pub fn duplicate(&self) -> (r: Self)
        ensures
            r == *self,
    {
        ConstraintInitGroup {
            if_needed: self.if_needed,
            seeds: match &self.seeds {
                Some(s) => Some(s.duplicate()),
                None => None,
            },
            payer: self.payer.clone(),
            space: copy_text(&self.space),
            kind: self.kind.duplicate(),
        }
    }
}

#[derive(Clone, Copy, Debug, PartialEq, Eq)]
pub struct ConstraintZeroed {}

#[derive(Clone, Debug, PartialEq, Eq)]
pub struct ConstraintMut {
    pub error: Option<String>,
}

#[derive(Clone, Debug, PartialEq, Eq)]
pub struct ConstraintSigner {
    pub error: Option<String>,
}

#[derive(Clone, Debug, PartialEq, Eq)]
pub struct ConstraintHasOne {
    pub join_target: String,
    pub error: Option<String>,
}

impl ConstraintHasOne {
    pub fn duplicate(&self) -> (r: Self)
        ensures
            r == *self,
    {
        ConstraintHasOne { join_target: self.join_target.clone(), error: copy_text(&self.error) }
    }
}

/// The deprecated form: a boolean expression written as a string literal;
/// `lit` is the literal's value.
#[derive(Clone, Debug, PartialEq, Eq)]
pub struct ConstraintLiteral {
    pub lit: String,
}

#[derive(Clone, Debug, PartialEq, Eq)]
pub struct ConstraintRaw {
    pub raw: String,
    pub error: Option<String>,
}

impl ConstraintRaw {
    pub fn duplicate(&self) -> (r: Self)
        ensures
            r == *self,
    {
        ConstraintRaw { raw: self.raw.clone(), error: copy_text(&self.error) }
    }
}

#[derive(Clone, Debug, PartialEq, Eq)]
pub struct ConstraintOwner {
    pub owner_address: String,
    pub error: Option<String>,
}

#[derive(Clone, Copy, Debug, PartialEq, Eq)]
pub enum ConstraintRentExempt {
    Enforce,
    Skip,
}

#[derive(Clone, Copy, Debug, PartialEq, Eq)]
pub struct ConstraintExecutable {}

#[derive(Clone, Debug, PartialEq, Eq)]
pub struct ConstraintState {
    pub program_target: String,
}

#[derive(Clone, Debug, PartialEq, Eq)]
pub struct ConstraintClose {
    pub sol_dest: String,
}

#[derive(Clone, Debug, PartialEq, Eq)]
pub struct ConstraintAddress {
    pub address: String,
    pub error: Option<String>,
}

#[derive(Clone, Debug, PartialEq, Eq)]
pub struct ConstraintAssociatedToken {
    pub wallet: String,
    pub mint: String,
}

/// All constraints declared on one field: at most one of each single-valued
/// category, and lists for the categories that may repeat.
#[derive(Clone, Debug, PartialEq, Eq)]
pub struct ConstraintGroup {
    pub init: Option<ConstraintInitGroup>,
    pub zeroed: Option<ConstraintZeroed>,
    pub mutable: Option<ConstraintMut>,
    pub signer: Option<ConstraintSigner>,
    pub has_one: Vec<ConstraintHasOne>,
    pub literal: Vec<ConstraintLiteral>,
    pub raw: Vec<ConstraintRaw>,
    pub owner: Option<ConstraintOwner>,
    pub rent_exempt: Option<ConstraintRentExempt>,
    pub seeds: Option<ConstraintSeedsGroup>,
    pub executable: Option<ConstraintExecutable>,
    pub state: Option<ConstraintState>,
    pub close: Option<ConstraintClose>,
    pub address: Option<ConstraintAddress>,
    pub associated_token: Option<ConstraintAssociatedToken>,
}

/// One constraint of any category.
#[derive(Clone, Debug, PartialEq, Eq)]
pub enum Constraint {
    Init(ConstraintInitGroup),
    Zeroed(ConstraintZeroed),
    Mut(ConstraintMut),
    HasOne(ConstraintHasOne),
    Signer(ConstraintSigner),
    Literal(ConstraintLiteral),
    Raw(ConstraintRaw),
    Owner(ConstraintOwner),
    RentExempt(ConstraintRentExempt),
    Seeds(ConstraintSeedsGroup),
    Executable(ConstraintExecutable),
    State(ConstraintState),
    Close(ConstraintClose),
    Address(ConstraintAddress),
    AssociatedToken(ConstraintAssociatedToken),
}

/// A leaf field of an accounts structure.
#[derive(Clone, Debug, PartialEq, Eq)]
pub struct Field {
    pub ident: String,
    pub ty: Ty,
    pub constraints: ConstraintGroup,
}

/// A field that is itself a group of fields; it may carry only raw and
/// deprecated-literal constraints.
#[derive(Clone, Debug, PartialEq, Eq)]
pub struct CompositeField {
    pub ident: String,
    pub constraints: ConstraintGroup,
}

} // verus!
