use account_constraints::model::{
    ConstraintAddress, ConstraintClose, ConstraintExecutable, ConstraintOwner, ConstraintZeroed,
    CompositeField, ConstraintAssociatedToken, ConstraintGroup, ConstraintHasOne,
    ConstraintInitGroup, ConstraintLiteral, ConstraintMut, ConstraintRaw, ConstraintRentExempt,
    ConstraintSeedsGroup, ConstraintSigner, ConstraintState, Field, InitKind, Ty,
};
use account_constraints::procedure::{
    Cond, CreateAccount, Creation, Derivation, ErrorCode, ErrorRef, Failure, Guard,
    InitProcedure, InternalError, OwnerExpr, SpaceExpr, Step,
};
use account_constraints::{
    generate, generate_composite, generate_constraint_associated_token,
    generate_constraint_has_one, generate_constraint_init, generate_constraint_literal,
    generate_constraint_mut, generate_constraint_seeds, generate_constraint_signer,
    generate_constraint_state, generate_custom_error,
};

fn empty_group() -> ConstraintGroup {
    ConstraintGroup {
        init: None,
        zeroed: None,
        mutable: None,
        signer: None,
        has_one: vec![],
        literal: vec![],
        raw: vec![],
        owner: None,
        rent_exempt: None,
        seeds: None,
        executable: None,
        state: None,
        close: None,
        address: None,
        associated_token: None,
    }
}

fn field(name: &str, ty: Ty) -> Field {
    Field { ident: name.to_string(), ty, constraints: empty_group() }
}

fn code(account: &str, c: ErrorCode) -> Failure {
    Failure { error: ErrorRef::Code(c), account: account.to_string() }
}

fn s(t: &str) -> String {
    t.to_string()
}

#[test]
fn generic_if_needed_creation_plan() {
    // Size 165, owner "TokenProgram", created only when needed.
    let f = field("vault", Ty::Account(s("Vault")));
    let c = ConstraintInitGroup {
        if_needed: true,
        seeds: None,
        payer: s("payer"),
        space: Some(s("165")),
        kind: InitKind::Program { owner: Some(s("TokenProgram")) },
    };
    let step = generate_constraint_init(&f, &c).unwrap();
    let account = CreateAccount {
        field: s("vault"),
        space: SpaceExpr::Explicit(s("165")),
        owner: OwnerExpr::Explicit(s("TokenProgram")),
        signer_seeds: None,
    };
    let expected = InitProcedure {
        field: s("vault"),
        ty: Ty::Account(s("Vault")),
        if_needed: true,
        payer: s("payer"),
        pda_seeds: None,
        creation: Creation::Program { account },
    };
    assert_eq!(step, Step::Init(expected.clone()));
    assert_eq!(
        expected.reverification(),
        vec![
            Guard {
                cond: Cond::SpaceIs { field: s("vault"), space: SpaceExpr::Explicit(s("165")) },
                fail: code("vault", ErrorCode::ConstraintSpace),
            },
            Guard {
                cond: Cond::CreatedOwner {
                    field: s("vault"),
                    owner: OwnerExpr::Explicit(s("TokenProgram")),
                },
                fail: code("vault", ErrorCode::ConstraintOwner),
            },
            Guard {
                cond: Cond::Funded { field: s("vault"), space: SpaceExpr::Explicit(s("165")) },
                fail: code("vault", ErrorCode::ConstraintRentExempt),
            },
        ]
    );
}

#[test]
fn mint_creation_plan() {
    let f = field("mint", Ty::Account(s("Mint")));
    let c = ConstraintInitGroup {
        if_needed: false,
        seeds: None,
        payer: s("payer"),
        space: None,
        kind: InitKind::Mint { owner: s("authority"), freeze_authority: None, decimals: s("6") },
    };
    let step = generate_constraint_init(&f, &c).unwrap();
    let p = match step {
        Step::Init(p) => p,
        other => panic!("unexpected step {:?}", other),
    };
    assert_eq!(
        p.creation,
        Creation::Mint {
            account: CreateAccount {
                field: s("mint"),
                space: SpaceExpr::MintLen,
                owner: OwnerExpr::TokenProgram,
                signer_seeds: None,
            },
            decimals: s("6"),
            authority: s("authority"),
            freeze_authority: None,
        }
    );
    assert!(p.reverification().is_empty());
}

#[test]
fn token_and_associated_reverification() {
    let f = field("ata", Ty::Account(s("TokenAccount")));
    let c = ConstraintInitGroup {
        if_needed: true,
        seeds: None,
        payer: s("payer"),
        space: None,
        kind: InitKind::AssociatedToken { owner: s("wallet"), mint: s("mint") },
    };
    let p = match generate_constraint_init(&f, &c).unwrap() {
        Step::Init(p) => p,
        other => panic!("unexpected step {:?}", other),
    };
    assert_eq!(p.creation, Creation::AssociatedToken { wallet: s("wallet"), mint: s("mint") });
    let codes: Vec<ErrorRef> = p.reverification().into_iter().map(|g| g.fail.error).collect();
    assert_eq!(
        codes,
        vec![
            ErrorRef::Code(ErrorCode::ConstraintTokenMint),
            ErrorRef::Code(ErrorCode::ConstraintTokenOwner),
            ErrorRef::Code(ErrorCode::AccountNotAssociatedTokenAccount),
        ]
    );
    let c = ConstraintInitGroup {
        kind: InitKind::Token { owner: s("wallet"), mint: s("mint") },
        seeds: Some(ConstraintSeedsGroup {
            is_init: true,
            seeds: s("b\"vault\""),
            bump: None,
            program_seed: None,
        }),
        ..c
    };
    let p = match generate_constraint_init(&f, &c).unwrap() {
        Step::Init(p) => p,
        other => panic!("unexpected step {:?}", other),
    };
    assert_eq!(p.pda_seeds, Some(s("b\"vault\"")));
    assert_eq!(
        p.creation,
        Creation::Token {
            account: CreateAccount {
                field: s("ata"),
                space: SpaceExpr::TokenAccountLen,
                owner: OwnerExpr::TokenProgram,
                signer_seeds: Some(s("b\"vault\"")),
            },
            mint: s("mint"),
            authority: s("wallet"),
        }
    );
    assert_eq!(p.reverification().len(), 2);
}

#[test]
fn default_space_follows_the_value_type() {
    let c = ConstraintInitGroup {
        if_needed: false,
        seeds: None,
        payer: s("payer"),
        space: None,
        kind: InitKind::Program { owner: None },
    };
    let serialized = generate_constraint_init(&field("a", Ty::Account(s("Data"))), &c).unwrap();
    let zero_copy = generate_constraint_init(&field("a", Ty::AccountLoader(s("Big"))), &c).unwrap();
    let space_of = |st: Step| match st {
        Step::Init(InitProcedure { creation: Creation::Program { account }, .. }) => {
            (account.space, account.owner)
        }
        other => panic!("unexpected step {:?}", other),
    };
    assert_eq!(space_of(serialized), (SpaceExpr::Serialized(s("Data")), OwnerExpr::CurrentProgram));
    assert_eq!(space_of(zero_copy), (SpaceExpr::ZeroCopy(s("Big")), OwnerExpr::CurrentProgram));
    assert_eq!(
        generate_constraint_init(&field("a", Ty::AccountInfo), &c),
        Err(InternalError::UntypedInit)
    );
}

#[test]
fn composite_with_structural_constraint_aborts() {
    let mut g = empty_group();
    g.signer = Some(ConstraintSigner { error: None });
    g.raw.push(ConstraintRaw { raw: s("x"), error: None });
    let f = CompositeField { ident: s("nested"), constraints: g };
    assert_eq!(generate_composite(&f), Err(InternalError::CompositeConstraint));
}

#[test]
fn composite_with_raw_and_literal() {
    let mut g = empty_group();
    g.raw.push(ConstraintRaw { raw: s("x > 1"), error: None });
    g.literal.push(ConstraintLiteral { lit: s("y") });
    let f = CompositeField { ident: s("nested"), constraints: g };
    let steps = generate_composite(&f).unwrap();
    assert_eq!(steps.len(), 2);
    match &steps[0] {
        Step::Deprecated { check, .. } => {
            assert_eq!(check.cond, Cond::Expr { code: s("y") });
            assert_eq!(check.fail, code("nested", ErrorCode::Deprecated));
        }
        other => panic!("unexpected step {:?}", other),
    }
    assert_eq!(
        steps[1],
        Step::Check(Guard {
            cond: Cond::Expr { code: s("x > 1") },
            fail: code("nested", ErrorCode::ConstraintRaw),
        })
    );
}

#[test]
fn literal_drops_quotes_and_advises() {
    let step = generate_constraint_literal(&s("acc"), &ConstraintLiteral { lit: s("a == \"b\"") });
    assert_eq!(
        step,
        Step::Deprecated {
            check: Guard {
                cond: Cond::Expr { code: s("a == b") },
                fail: code("acc", ErrorCode::Deprecated),
            },
            advisory: s("Deprecated. Should be used with constraint: #[account(constraint = a == b)]"),
        }
    );
}

#[test]
fn custom_error_replaces_only_the_error() {
    assert_eq!(
        generate_custom_error(&s("acc"), &Some(s("MyError::Bad")), ErrorCode::ConstraintMut),
        Failure { error: ErrorRef::Custom(s("MyError::Bad")), account: s("acc") }
    );
    let f = field("acc", Ty::AccountInfo);
    assert_eq!(
        generate_constraint_mut(&f, &ConstraintMut { error: Some(s("E")) }),
        Step::Check(Guard {
            cond: Cond::Writable { field: s("acc") },
            fail: Failure { error: ErrorRef::Custom(s("E")), account: s("acc") },
        })
    );
    assert_eq!(
        generate_constraint_mut(&f, &ConstraintMut { error: None }),
        Step::Check(Guard {
            cond: Cond::Writable { field: s("acc") },
            fail: code("acc", ErrorCode::ConstraintMut),
        })
    );
}

#[test]
fn signer_depends_on_the_field_type() {
    let c = ConstraintSigner { error: None };
    assert_eq!(
        generate_constraint_signer(&field("a", Ty::AccountInfo), &c),
        Ok(Step::Check(Guard {
            cond: Cond::Signer { field: s("a"), wrapped: false },
            fail: code("a", ErrorCode::ConstraintSigner),
        }))
    );
    assert_eq!(
        generate_constraint_signer(&field("a", Ty::Account(s("D"))), &c),
        Ok(Step::Check(Guard {
            cond: Cond::Signer { field: s("a"), wrapped: true },
            fail: code("a", ErrorCode::ConstraintSigner),
        }))
    );
    assert_eq!(
        generate_constraint_signer(&field("a", Ty::Program(s("P"))), &c),
        Err(InternalError::SignerNotAllowed)
    );
}

#[test]
fn state_requires_a_cross_program_state() {
    let c = ConstraintState { program_target: s("prog") };
    assert_eq!(
        generate_constraint_state(&field("st", Ty::Account(s("S"))), &c),
        Err(InternalError::StateNotAllowed)
    );
    assert_eq!(
        generate_constraint_state(&field("st", Ty::CpiState(s("S"))), &c),
        Ok(Step::Both(
            Guard {
                cond: Cond::StateAddress {
                    field: s("st"),
                    account_ty: s("S"),
                    program: s("prog"),
                },
                fail: code("st", ErrorCode::ConstraintState),
            },
            Guard {
                cond: Cond::StateOwner { field: s("st"), program: s("prog") },
                fail: code("st", ErrorCode::ConstraintState),
            },
        ))
    );
}

#[test]
fn seeds_modes() {
    let f = field("pda", Ty::AccountInfo);
    let base = ConstraintSeedsGroup {
        is_init: false,
        seeds: s("b\"a\""),
        bump: None,
        program_seed: None,
    };
    let fail = code("pda", ErrorCode::ConstraintSeeds);
    assert_eq!(
        generate_constraint_seeds(&f, &base),
        Step::Seeds {
            field: s("pda"),
            derivation: Derivation::Search { seeds: s("b\"a\""), program: None },
            fail: fail.clone(),
        }
    );
    let verify = ConstraintSeedsGroup {
        bump: Some(s("254")),
        program_seed: Some(s("other")),
        ..base.clone()
    };
    assert_eq!(
        generate_constraint_seeds(&f, &verify),
        Step::Seeds {
            field: s("pda"),
            derivation: Derivation::Verify {
                seeds: s("b\"a\""),
                bump: s("254"),
                program: Some(s("other")),
            },
            fail: fail.clone(),
        }
    );
    let with_init = ConstraintSeedsGroup { is_init: true, bump: Some(s("b")), ..base };
    assert_eq!(
        generate_constraint_seeds(&f, &with_init),
        Step::Seeds {
            field: s("pda"),
            derivation: Derivation::FromInit { bump: Some(s("b")) },
            fail,
        }
    );
}

#[test]
fn has_one_loads_zero_copy_values() {
    let c = ConstraintHasOne { join_target: s("authority"), error: None };
    let step = generate_constraint_has_one(&field("data", Ty::AccountLoader(s("D"))), &c);
    assert_eq!(
        step,
        Step::Check(Guard {
            cond: Cond::HasOne { field: s("data"), zero_copy: true, target: s("authority") },
            fail: code("data", ErrorCode::ConstraintHasOne),
        })
    );
}

#[test]
fn associated_token_checks_owner_then_address() {
    let c = ConstraintAssociatedToken { wallet: s("w"), mint: s("m") };
    let step = generate_constraint_associated_token(&field("t", Ty::Account(s("T"))), &c);
    assert_eq!(
        step,
        Step::Both(
            Guard {
                cond: Cond::TokenOwner { field: s("t"), wallet: s("w") },
                fail: code("t", ErrorCode::ConstraintTokenOwner),
            },
            Guard {
                cond: Cond::Associated { field: s("t"), wallet: s("w"), mint: s("m") },
                fail: code("t", ErrorCode::ConstraintAssociated),
            },
        )
    );
}

#[test]
fn rent_fetch_only_when_enforced() {
    let mut f = field("acc", Ty::AccountInfo);
    f.constraints.rent_exempt = Some(ConstraintRentExempt::Enforce);
    let p = generate(&f).unwrap();
    assert!(p.fetch_rent);
    assert_eq!(
        p.steps,
        vec![Step::Check(Guard {
            cond: Cond::RentExempt { field: s("acc") },
            fail: code("acc", ErrorCode::ConstraintRentExempt),
        })]
    );
    f.constraints.rent_exempt = Some(ConstraintRentExempt::Skip);
    let p = generate(&f).unwrap();
    assert!(!p.fetch_rent);
    assert_eq!(p.steps, vec![Step::Skip]);
}

#[test]
fn generate_follows_linear_order_and_stops_on_violation() {
    let mut f = field("acc", Ty::AccountInfo);
    f.constraints.raw.push(ConstraintRaw { raw: s("ok"), error: None });
    f.constraints.mutable = Some(ConstraintMut { error: None });
    let p = generate(&f).unwrap();
    assert_eq!(p.steps.len(), 2);
    assert!(matches!(&p.steps[0], Step::Check(Guard { cond: Cond::Writable { .. }, .. })));
    assert!(matches!(&p.steps[1], Step::Check(Guard { cond: Cond::Expr { .. }, .. })));
    f.constraints.state = Some(ConstraintState { program_target: s("prog") });
    assert_eq!(generate(&f), Err(InternalError::StateNotAllowed));
}

#[test]
fn search_derivation_is_reproducible() {
    let c = ConstraintSeedsGroup {
        is_init: false,
        seeds: s("b\"pool\", mint.key().as_ref()"),
        bump: None,
        program_seed: Some(s("other_program")),
    };
    let first = generate_constraint_seeds(&field("a", Ty::AccountInfo), &c);
    let second = generate_constraint_seeds(&field("b", Ty::AccountInfo), &c.clone());
    let derivation = |st: Step| match st {
        Step::Seeds { derivation, .. } => derivation,
        other => panic!("unexpected step {:?}", other),
    };
    assert_eq!(derivation(first.clone()), derivation(second));
    assert_eq!(first, generate_constraint_seeds(&field("a", Ty::AccountInfo), &c));
}

#[test]
fn if_needed_creation_is_conditional_and_rechecked() {
    let f = field("mint", Ty::Account(s("Mint")));
    let c = ConstraintInitGroup {
        if_needed: true,
        seeds: None,
        payer: s("payer"),
        space: None,
        kind: InitKind::Mint { owner: s("auth"), freeze_authority: Some(s("freezer")), decimals: s("9") },
    };
    let p = match generate_constraint_init(&f, &c).unwrap() {
        Step::Init(p) => p,
        other => panic!("unexpected step {:?}", other),
    };
    assert!(p.if_needed);
    assert_eq!(
        p.reverification(),
        vec![
            Guard {
                cond: Cond::MintAuthority { field: s("mint"), authority: s("auth") },
                fail: code("mint", ErrorCode::ConstraintMintMintAuthority),
            },
            Guard {
                cond: Cond::FreezeAuthority { field: s("mint"), freeze_authority: Some(s("freezer")) },
                fail: code("mint", ErrorCode::ConstraintMintFreezeAuthority),
            },
            Guard {
                cond: Cond::Decimals { field: s("mint"), decimals: s("9") },
                fail: code("mint", ErrorCode::ConstraintMintDecimals),
            },
        ]
    );
}

#[test]
fn every_category_reports_its_error() {
    let mut f = field("acc", Ty::Account(s("Data")));
    let g = &mut f.constraints;
    g.zeroed = Some(ConstraintZeroed {});
    g.seeds = Some(ConstraintSeedsGroup { is_init: false, seeds: s(""), bump: None, program_seed: None });
    g.associated_token = Some(ConstraintAssociatedToken { wallet: s("w"), mint: s("m") });
    g.mutable = Some(ConstraintMut { error: None });
    g.signer = Some(ConstraintSigner { error: None });
    g.has_one.push(ConstraintHasOne { join_target: s("h"), error: None });
    g.literal.push(ConstraintLiteral { lit: s("true") });
    g.raw.push(ConstraintRaw { raw: s("true"), error: None });
    g.owner = Some(ConstraintOwner { owner_address: s("o"), error: None });
    g.rent_exempt = Some(ConstraintRentExempt::Enforce);
    g.executable = Some(ConstraintExecutable {});
    g.close = Some(ConstraintClose { sol_dest: s("d") });
    g.address = Some(ConstraintAddress { address: s("a"), error: Some(s("Custom")) });
    let p = generate(&f).unwrap();
    assert!(p.fetch_rent);
    let mut errors = vec![];
    for step in &p.steps {
        match step {
            Step::Check(g) | Step::Deprecated { check: g, .. } | Step::Zeroed { check: g, .. } => {
                errors.push(g.fail.error.clone())
            }
            Step::Both(a, b) => {
                errors.push(a.fail.error.clone());
                errors.push(b.fail.error.clone());
            }
            Step::Seeds { fail, .. } => errors.push(fail.error.clone()),
            Step::Skip | Step::Init(_) => {}
        }
    }
    let c = |e| ErrorRef::Code(e);
    assert_eq!(
        errors,
        vec![
            c(ErrorCode::ConstraintZero),
            c(ErrorCode::ConstraintSeeds),
            c(ErrorCode::ConstraintTokenOwner),
            c(ErrorCode::ConstraintAssociated),
            c(ErrorCode::ConstraintMut),
            c(ErrorCode::ConstraintSigner),
            c(ErrorCode::ConstraintHasOne),
            c(ErrorCode::Deprecated),
            c(ErrorCode::ConstraintRaw),
            c(ErrorCode::ConstraintOwner),
            c(ErrorCode::ConstraintRentExempt),
            c(ErrorCode::ConstraintExecutable),
            c(ErrorCode::ConstraintClose),
            ErrorRef::Custom(s("Custom")),
        ]
    );
}

#[test]
fn trailing_comma_in_seeds_is_dropped() {
    let f = field("pda", Ty::AccountInfo);
    let plain = ConstraintSeedsGroup {
        is_init: false,
        seeds: s("b\"a\", user.key().as_ref()"),
        bump: Some(s("bump")),
        program_seed: None,
    };
    let with_comma = ConstraintSeedsGroup { seeds: s("b\"a\", user.key().as_ref(),"), ..plain.clone() };
    let spaced = ConstraintSeedsGroup { seeds: s("b\"a\", user.key().as_ref() , \n"), ..plain.clone() };
    let expected = generate_constraint_seeds(&f, &plain);
    assert_eq!(generate_constraint_seeds(&f, &with_comma), expected);
    // Whitespace before the dropped comma stays; it is insignificant in tokens.
    assert_eq!(
        generate_constraint_seeds(&f, &spaced),
        generate_constraint_seeds(
            &f,
            &ConstraintSeedsGroup { seeds: s("b\"a\", user.key().as_ref() "), ..plain.clone() }
        )
    );
    let only_comma = ConstraintSeedsGroup { seeds: s(","), bump: None, ..plain.clone() };
    assert_eq!(
        generate_constraint_seeds(&f, &only_comma),
        Step::Seeds {
            field: s("pda"),
            derivation: Derivation::Search { seeds: s(""), program: None },
            fail: code("pda", ErrorCode::ConstraintSeeds),
        }
    );
    let init = ConstraintInitGroup {
        if_needed: false,
        seeds: Some(ConstraintSeedsGroup { is_init: true, ..with_comma }),
        payer: s("payer"),
        space: Some(s("8")),
        kind: InitKind::Program { owner: None },
    };
    match generate_constraint_init(&f, &init).unwrap() {
        Step::Init(p) => {
            assert_eq!(p.pda_seeds, Some(s("b\"a\", user.key().as_ref()")));
            assert_eq!(
                p.creation,
                Creation::Program {
                    account: CreateAccount {
                        field: s("pda"),
                        space: SpaceExpr::Explicit(s("8")),
                        owner: OwnerExpr::CurrentProgram,
                        signer_seeds: Some(s("b\"a\", user.key().as_ref()")),
                    },
                }
            );
        }
        other => panic!("unexpected step {:?}", other),
    }
}
