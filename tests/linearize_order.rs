use account_constraints::linearize;
use account_constraints::model::{
    Constraint, ConstraintAddress, ConstraintClose, ConstraintExecutable, ConstraintGroup,
    ConstraintHasOne, ConstraintInitGroup, ConstraintLiteral, ConstraintMut, ConstraintOwner,
    ConstraintRaw, ConstraintRentExempt, ConstraintSeedsGroup, ConstraintSigner, ConstraintZeroed,
    InitKind,
};

fn empty_group() -> ConstraintGroup {
    ConstraintGroup {
        init: None,
        zeroed: None,
        mutable: None,
        signer: None,
        has_one: vec![],
        literal: vec![],
        raw: vec![],
        owner: None,
        rent_exempt: None,
        seeds: None,
        executable: None,
        state: None,
        close: None,
        address: None,
        associated_token: None,
    }
}

fn raw(code: &str) -> ConstraintRaw {
    ConstraintRaw { raw: code.to_string(), error: None }
}

fn tag(c: &Constraint) -> &'static str {
    match c {
        Constraint::Init(_) => "init",
        Constraint::Zeroed(_) => "zeroed",
        Constraint::Mut(_) => "mut",
        Constraint::HasOne(_) => "has_one",
        Constraint::Signer(_) => "signer",
        Constraint::Literal(_) => "literal",
        Constraint::Raw(_) => "raw",
        Constraint::Owner(_) => "owner",
        Constraint::RentExempt(_) => "rent_exempt",
        Constraint::Seeds(_) => "seeds",
        Constraint::Executable(_) => "executable",
        Constraint::State(_) => "state",
        Constraint::Close(_) => "close",
        Constraint::Address(_) => "address",
        Constraint::AssociatedToken(_) => "associated_token",
    }
}

#[test]
fn mutable_signer_raw_in_fixed_order() {
    // Declared as raw, then signer, then mut: the order is still mut, signer, raw.
    let mut g = empty_group();
    g.raw.push(raw("vault.amount > 0"));
    g.signer = Some(ConstraintSigner { error: None });
    g.mutable = Some(ConstraintMut { error: None });
    let lin = linearize(&g);
    assert_eq!(
        lin,
        vec![
            Constraint::Mut(ConstraintMut { error: None }),
            Constraint::Signer(ConstraintSigner { error: None }),
            Constraint::Raw(raw("vault.amount > 0")),
        ]
    );
}

#[test]
fn repeated_categories_keep_declared_order() {
    let mut g = empty_group();
    g.raw.push(raw("b"));
    g.raw.push(raw("a"));
    g.raw.push(raw("c"));
    g.has_one.push(ConstraintHasOne { join_target: "owner".to_string(), error: None });
    g.has_one.push(ConstraintHasOne { join_target: "mint".to_string(), error: None });
    g.literal.push(ConstraintLiteral { lit: "x == y".to_string() });
    let lin = linearize(&g);
    let tags: Vec<&str> = lin.iter().map(tag).collect();
    assert_eq!(tags, vec!["has_one", "has_one", "literal", "raw", "raw", "raw"]);
    assert_eq!(lin[0], Constraint::HasOne(ConstraintHasOne { join_target: "owner".to_string(), error: None }));
    assert_eq!(lin[1], Constraint::HasOne(ConstraintHasOne { join_target: "mint".to_string(), error: None }));
    assert_eq!(lin[3], Constraint::Raw(raw("b")));
    assert_eq!(lin[4], Constraint::Raw(raw("a")));
    assert_eq!(lin[5], Constraint::Raw(raw("c")));
}

#[test]
fn every_category_in_place() {
    let mut g = empty_group();
    g.address = Some(ConstraintAddress { address: "ADDR".to_string(), error: None });
    g.close = Some(ConstraintClose { sol_dest: "dest".to_string() });
    g.executable = Some(ConstraintExecutable {});
    g.rent_exempt = Some(ConstraintRentExempt::Enforce);
    g.owner = Some(ConstraintOwner { owner_address: "prog".to_string(), error: None });
    g.raw.push(raw("r"));
    g.literal.push(ConstraintLiteral { lit: "l".to_string() });
    g.has_one.push(ConstraintHasOne { join_target: "h".to_string(), error: None });
    g.signer = Some(ConstraintSigner { error: None });
    g.mutable = Some(ConstraintMut { error: None });
    g.seeds = Some(ConstraintSeedsGroup {
        is_init: true,
        seeds: "b\"seed\"".to_string(),
        bump: None,
        program_seed: None,
    });
    g.init = Some(ConstraintInitGroup {
        if_needed: false,
        seeds: None,
        payer: "payer".to_string(),
        space: None,
        kind: InitKind::Program { owner: None },
    });
    g.zeroed = Some(ConstraintZeroed {});
    let tags: Vec<&str> = linearize(&g).iter().map(tag).collect();
    assert_eq!(
        tags,
        vec![
            "zeroed", "init", "seeds", "mut", "signer", "has_one", "literal", "raw", "owner",
            "rent_exempt", "executable", "close", "address",
        ]
    );
}

#[test]
fn empty_group_linearizes_to_nothing() {
    assert!(linearize(&empty_group()).is_empty());
}
