use kobafin_escrow::{
    check_withdraw, check_withdraw_with_fee, deposit, init_pot_vault, withdraw, withdraw_with_fee, AccountMeta, Deposit, EscrowError,
    InitPotVault, Pubkey, Signer, TokenAccount, Vault, VaultAccount, Withdraw, WithdrawWithFee,
};

const FLOOR: u64 = 1_844_400;

fn key(b: u8) -> Pubkey {
    Pubkey::new_from_array([b; 32])
}

fn record(owner: Pubkey, pot: [u8; 32]) -> Vault {
    Vault { owner, pot_hash: pot, bump: 254, usdc_mint: key(7), usdc_vault: key(8) }
}

fn vault_account(owner: Pubkey, pot: [u8; 32], lamports: u64) -> VaultAccount {
    VaultAccount { key: key(9), lamports, data: record(owner, pot) }
}

fn admin_account(lamports: u64) -> VaultAccount {
    VaultAccount { key: key(20), lamports, data: record(key(21), [22; 32]) }
}

fn blank_vault() -> Vault {
    Vault {
        owner: Pubkey::default(),
        pot_hash: [0; 32],
        bump: 0,
        usdc_mint: Pubkey::default(),
        usdc_vault: Pubkey::default(),
    }
}

#[test]
fn init_pot_vault_writes_every_field() {
    let mut ctx = InitPotVault {
        owner: Signer { key: key(1), lamports: 5_000_000 },
        vault: VaultAccount { key: key(9), lamports: FLOOR, data: blank_vault() },
        usdc_mint: key(7),
        vault_usdc: TokenAccount { key: key(8), amount: 0 },
        vault_bump: 253,
    };
    assert_eq!(init_pot_vault(&mut ctx, [3; 32]), Ok(()));
    assert_eq!(
        ctx.vault.data,
        Vault { owner: key(1), pot_hash: [3; 32], bump: 253, usdc_mint: key(7), usdc_vault: key(8) }
    );
    assert_eq!(ctx.vault.key, key(9));
    assert_eq!(ctx.vault.lamports, FLOOR);
    assert_eq!(ctx.owner, Signer { key: key(1), lamports: 5_000_000 });
    assert_eq!(ctx.vault_usdc, TokenAccount { key: key(8), amount: 0 });
    assert_eq!(ctx.usdc_mint, key(7));
    assert_eq!(ctx.vault_bump, 253);
}

#[test]
fn deposit_returns_the_system_transfer() {
    let ctx = Deposit {
        owner: Signer { key: key(1), lamports: 10_000 },
        vault: vault_account(key(1), [3; 32], FLOOR),
    };
    let ix = deposit(&ctx, [3; 32], 1000).unwrap();
    assert_eq!(ix.program_id, Pubkey::new_from_array([0; 32]));
    assert_eq!(
        ix.accounts,
        vec![
            AccountMeta { pubkey: key(1), is_signer: true, is_writable: true },
            AccountMeta { pubkey: key(9), is_signer: false, is_writable: true },
        ]
    );
    assert_eq!(ix.data, vec![2, 0, 0, 0, 0xe8, 0x03, 0, 0, 0, 0, 0, 0]);
}

#[test]
fn deposit_payload_carries_the_amount() {
    let ctx = Deposit {
        owner: Signer { key: key(1), lamports: 0 },
        vault: vault_account(key(1), [3; 32], 0),
    };
    let small = deposit(&ctx, [3; 32], 1).unwrap();
    let large = deposit(&ctx, [3; 32], u64::MAX).unwrap();
    assert_eq!(small.data, vec![2, 0, 0, 0, 1, 0, 0, 0, 0, 0, 0, 0]);
    assert_eq!(large.data, vec![2, 0, 0, 0, 255, 255, 255, 255, 255, 255, 255, 255]);
    assert_eq!(small.accounts, large.accounts);
    let mixed = deposit(&ctx, [3; 32], 0x0102_0304_0506_0708).unwrap();
    assert_eq!(mixed.data, vec![2, 0, 0, 0, 8, 7, 6, 5, 4, 3, 2, 1]);
    let high = deposit(&ctx, [3; 32], 1 << 63).unwrap();
    assert_eq!(high.data, vec![2, 0, 0, 0, 0, 0, 0, 0, 0, 0, 0, 0x80]);
}

#[test]
fn deposit_of_nothing_is_invalid_amount() {
    let ctx = Deposit {
        owner: Signer { key: key(1), lamports: 10_000 },
        vault: vault_account(key(1), [3; 32], FLOOR),
    };
    assert_eq!(deposit(&ctx, [3; 32], 0), Err(EscrowError::InvalidAmount));
    // The amount is judged before the caller.
    let stranger = Deposit { owner: Signer { key: key(2), lamports: 10_000 }, vault: ctx.vault };
    assert_eq!(deposit(&stranger, [3; 32], 0), Err(EscrowError::InvalidAmount));
}

#[test]
fn deposit_by_a_stranger_is_unauthorized() {
    let ctx = Deposit {
        owner: Signer { key: key(2), lamports: 10_000 },
        vault: vault_account(key(1), [3; 32], FLOOR),
    };
    assert_eq!(deposit(&ctx, [3; 32], 1000), Err(EscrowError::Unauthorized));
    // The owner is judged before the pot.
    assert_eq!(deposit(&ctx, [4; 32], 1000), Err(EscrowError::Unauthorized));
}

#[test]
fn deposit_for_another_pot_is_bad_pot() {
    let ctx = Deposit {
        owner: Signer { key: key(1), lamports: 10_000 },
        vault: vault_account(key(1), [3; 32], FLOOR),
    };
    assert_eq!(deposit(&ctx, [4; 32], 1000), Err(EscrowError::BadPot));
}

#[test]
fn withdraw_moves_the_amount_to_the_owner() {
    let mut ctx = Withdraw {
        owner: Signer { key: key(1), lamports: 40 },
        vault: vault_account(key(1), [3; 32], FLOOR + 1000),
    };
    assert_eq!(withdraw(&mut ctx, [3; 32], 600, FLOOR), Ok(()));
    assert_eq!(ctx.vault.lamports, FLOOR + 400);
    assert_eq!(ctx.owner.lamports, 640);
    assert_eq!(ctx.vault.data, record(key(1), [3; 32]));
    assert_eq!(ctx.vault.key, key(9));
    assert_eq!(ctx.owner.key, key(1));
}

#[test]
fn withdraw_down_to_the_floor_and_no_further() {
    let mut ctx = Withdraw {
        owner: Signer { key: key(1), lamports: 0 },
        vault: vault_account(key(1), [3; 32], FLOOR + 1000),
    };
    let before = ctx;
    assert_eq!(withdraw(&mut ctx, [3; 32], 1001, FLOOR), Err(EscrowError::InsufficientFunds));
    assert_eq!(ctx, before);
    assert_eq!(withdraw(&mut ctx, [3; 32], 1000, FLOOR), Ok(()));
    assert_eq!(ctx.vault.lamports, FLOOR);
    assert_eq!(ctx.owner.lamports, 1000);
    assert_eq!(withdraw(&mut ctx, [3; 32], 1, FLOOR), Err(EscrowError::InsufficientFunds));
    assert_eq!(ctx.vault.lamports, FLOOR);
}

#[test]
fn withdraw_from_a_vault_below_the_floor() {
    let mut ctx = Withdraw {
        owner: Signer { key: key(1), lamports: 5 },
        vault: vault_account(key(1), [3; 32], FLOOR - 1),
    };
    let before = ctx;
    assert_eq!(withdraw(&mut ctx, [3; 32], 1, FLOOR), Err(EscrowError::InsufficientFunds));
    assert_eq!(ctx, before);
    // Not even nothing can be taken from a vault below the floor.
    assert_eq!(withdraw(&mut ctx, [3; 32], 0, FLOOR), Err(EscrowError::InsufficientFunds));
    assert_eq!(check_withdraw(&ctx, [3; 32], 0, FLOOR), Err(EscrowError::InsufficientFunds));
    assert_eq!(ctx, before);
    ctx.vault.lamports = 0;
    assert_eq!(withdraw(&mut ctx, [3; 32], 0, 1), Err(EscrowError::InsufficientFunds));
    assert_eq!(withdraw(&mut ctx, [3; 32], 0, u64::MAX), Err(EscrowError::InsufficientFunds));
    assert_eq!(ctx.vault.lamports, 0);
}

#[test]
fn withdraw_of_nothing_from_a_vault_at_the_floor() {
    let mut ctx = Withdraw {
        owner: Signer { key: key(1), lamports: 5 },
        vault: vault_account(key(1), [3; 32], FLOOR),
    };
    let before = ctx;
    assert_eq!(withdraw(&mut ctx, [3; 32], 0, FLOOR), Ok(()));
    assert_eq!(ctx, before);
    ctx.vault.lamports = 0;
    assert_eq!(withdraw(&mut ctx, [3; 32], 0, 0), Ok(()));
    assert_eq!(ctx.vault.lamports, 0);
    assert_eq!(ctx.owner.lamports, 5);
}

#[test]
fn withdraw_with_fee_from_a_vault_below_the_floor() {
    let mut ctx = WithdrawWithFee {
        owner: Signer { key: key(1), lamports: 0 },
        vault: vault_account(key(1), [3; 32], FLOOR - 1),
        admin_vault: admin_account(0),
    };
    let before = ctx;
    assert_eq!(
        withdraw_with_fee(&mut ctx, [3; 32], 1, 0, FLOOR),
        Err(EscrowError::InsufficientFunds)
    );
    assert_eq!(
        check_withdraw_with_fee(&ctx, [3; 32], 1, 1, u64::MAX),
        Err(EscrowError::InsufficientFunds)
    );
    assert_eq!(ctx, before);
}

#[test]
fn withdraw_by_a_stranger_is_unauthorized() {
    let mut ctx = Withdraw {
        owner: Signer { key: key(2), lamports: 0 },
        vault: vault_account(key(1), [3; 32], FLOOR + 1000),
    };
    let before = ctx;
    assert_eq!(withdraw(&mut ctx, [3; 32], 10, FLOOR), Err(EscrowError::Unauthorized));
    assert_eq!(withdraw(&mut ctx, [3; 32], 0, FLOOR), Err(EscrowError::Unauthorized));
    assert_eq!(withdraw(&mut ctx, [3; 32], u64::MAX, FLOOR), Err(EscrowError::Unauthorized));
    assert_eq!(ctx, before);
}

#[test]
fn withdraw_for_another_pot_is_bad_pot() {
    let mut ctx = Withdraw {
        owner: Signer { key: key(1), lamports: 0 },
        vault: vault_account(key(1), [3; 32], FLOOR + 1000),
    };
    let before = ctx;
    assert_eq!(withdraw(&mut ctx, [4; 32], 10, FLOOR), Err(EscrowError::BadPot));
    assert_eq!(ctx, before);
}

#[test]
fn withdraw_keeps_the_sum_of_the_balances() {
    let mut ctx = Withdraw {
        owner: Signer { key: key(1), lamports: u64::MAX - 1000 },
        vault: vault_account(key(1), [3; 32], 1000),
    };
    assert_eq!(withdraw(&mut ctx, [3; 32], 1000, 0), Ok(()));
    assert_eq!(ctx.owner.lamports, u64::MAX);
    assert_eq!(ctx.vault.lamports, 0);
}

#[test]
fn deposit_then_withdraw_with_fee_pays_owner_and_admin() {
    let owner = key(0xA1);
    let pot = [0x48; 32];
    let mut init = InitPotVault {
        owner: Signer { key: owner, lamports: 1_000_000 },
        vault: VaultAccount { key: key(9), lamports: FLOOR, data: blank_vault() },
        usdc_mint: key(7),
        vault_usdc: TokenAccount { key: key(8), amount: 0 },
        vault_bump: 255,
    };
    assert_eq!(init_pot_vault(&mut init, pot), Ok(()));

    let ix = deposit(&Deposit { owner: init.owner, vault: init.vault }, pot, 1000).unwrap();
    assert_eq!(ix.accounts[0].pubkey, owner);
    assert_eq!(ix.accounts[1].pubkey, key(9));
    assert_eq!(ix.data[4..], 1000u64.to_le_bytes());
    // What the system program does with that instruction.
    let owner_after = Signer { key: owner, lamports: 1_000_000 - 1000 };
    let vault_after = VaultAccount { lamports: FLOOR + 1000, ..init.vault };

    let mut ctx =
        WithdrawWithFee { owner: owner_after, vault: vault_after, admin_vault: admin_account(77) };
    assert_eq!(withdraw_with_fee(&mut ctx, pot, 300, 50, FLOOR), Ok(()));
    assert_eq!(ctx.owner.lamports, 999_000 + 250);
    assert_eq!(ctx.admin_vault.lamports, 77 + 50);
    assert_eq!(ctx.vault.lamports, FLOOR + 1000 - 300);
    assert_eq!(ctx.vault.data, vault_after.data);
    assert_eq!(ctx.admin_vault.data, admin_account(77).data);
}

#[test]
fn withdraw_with_fee_splits_exactly() {
    for (amount, fee) in [(1u64, 0u64), (1, 1), (300, 50), (1000, 1000), (1000, 0), (999, 998)] {
        let mut ctx = WithdrawWithFee {
            owner: Signer { key: key(1), lamports: 11 },
            vault: vault_account(key(1), [3; 32], FLOOR + 1000),
            admin_vault: admin_account(22),
        };
        assert_eq!(withdraw_with_fee(&mut ctx, [3; 32], amount, fee, FLOOR), Ok(()));
        let owner_got = ctx.owner.lamports - 11;
        let admin_got = ctx.admin_vault.lamports - 22;
        assert_eq!(owner_got, amount - fee);
        assert_eq!(admin_got, fee);
        assert_eq!(owner_got + admin_got, amount);
        assert_eq!(ctx.vault.lamports, FLOOR + 1000 - amount);
        assert!(ctx.vault.lamports >= FLOOR);
    }
}

#[test]
fn withdraw_with_fee_of_nothing_is_invalid_amount() {
    let mut ctx = WithdrawWithFee {
        owner: Signer { key: key(1), lamports: 0 },
        vault: vault_account(key(1), [3; 32], FLOOR + 1000),
        admin_vault: admin_account(0),
    };
    let before = ctx;
    assert_eq!(withdraw_with_fee(&mut ctx, [3; 32], 0, 0, FLOOR), Err(EscrowError::InvalidAmount));
    // The amount is judged before the fee.
    assert_eq!(withdraw_with_fee(&mut ctx, [3; 32], 0, 5, FLOOR), Err(EscrowError::InvalidAmount));
    assert_eq!(ctx, before);
}

#[test]
fn withdraw_with_fee_above_the_amount_is_invalid_fee() {
    let mut ctx = WithdrawWithFee {
        owner: Signer { key: key(1), lamports: 0 },
        vault: vault_account(key(1), [3; 32], FLOOR + 1000),
        admin_vault: admin_account(0),
    };
    let before = ctx;
    assert_eq!(withdraw_with_fee(&mut ctx, [3; 32], 300, 301, FLOOR), Err(EscrowError::InvalidFee));
    assert_eq!(ctx, before);
    // The fee is judged before the caller.
    ctx.owner.key = key(2);
    assert_eq!(withdraw_with_fee(&mut ctx, [3; 32], 300, 301, FLOOR), Err(EscrowError::InvalidFee));
}

#[test]
fn withdraw_with_fee_checks_the_caller_then_the_pot_then_the_funds() {
    let mut ctx = WithdrawWithFee {
        owner: Signer { key: key(2), lamports: 0 },
        vault: vault_account(key(1), [3; 32], FLOOR + 100),
        admin_vault: admin_account(0),
    };
    let before = ctx;
    assert_eq!(withdraw_with_fee(&mut ctx, [4; 32], 300, 50, FLOOR), Err(EscrowError::Unauthorized));
    assert_eq!(ctx, before);
    ctx.owner.key = key(1);
    assert_eq!(withdraw_with_fee(&mut ctx, [4; 32], 300, 50, FLOOR), Err(EscrowError::BadPot));
    assert_eq!(
        withdraw_with_fee(&mut ctx, [3; 32], 300, 50, FLOOR),
        Err(EscrowError::InsufficientFunds)
    );
    assert_eq!(ctx.vault, before.vault);
    assert_eq!(ctx.admin_vault, before.admin_vault);
    assert_eq!(withdraw_with_fee(&mut ctx, [3; 32], 100, 50, FLOOR), Ok(()));
    assert_eq!(ctx.vault.lamports, FLOOR);
}

#[test]
fn checks_judge_without_paying() {
    let w = Withdraw {
        owner: Signer { key: key(1), lamports: 0 },
        vault: vault_account(key(1), [3; 32], FLOOR + 10),
    };
    assert_eq!(check_withdraw(&w, [3; 32], 10, FLOOR), Ok(()));
    assert_eq!(check_withdraw(&w, [3; 32], 11, FLOOR), Err(EscrowError::InsufficientFunds));
    assert_eq!(check_withdraw(&w, [4; 32], 10, FLOOR), Err(EscrowError::BadPot));
    let f = WithdrawWithFee { owner: w.owner, vault: w.vault, admin_vault: admin_account(0) };
    assert_eq!(check_withdraw_with_fee(&f, [3; 32], 10, 10, FLOOR), Ok(()));
    assert_eq!(check_withdraw_with_fee(&f, [3; 32], 10, 11, FLOOR), Err(EscrowError::InvalidFee));
    assert_eq!(check_withdraw_with_fee(&f, [3; 32], 0, 0, FLOOR), Err(EscrowError::InvalidAmount));
    assert_eq!(
        check_withdraw_with_fee(&f, [3; 32], 11, 1, FLOOR),
        Err(EscrowError::InsufficientFunds)
    );
    assert_eq!(f.vault.lamports, FLOOR + 10);
}

#[test]
fn reserve_floor_of_the_ledger_for_a_vault_record() {
    // The floor that the ledger computes for a record of the vault's size.
    let floor = anchor_lang::solana_program::rent::Rent::default().minimum_balance(Vault::SPACE);
    assert_eq!(floor, FLOOR);
    let mut ctx = Withdraw {
        owner: Signer { key: key(1), lamports: 0 },
        vault: vault_account(key(1), [3; 32], floor + 5),
    };
    assert_eq!(withdraw(&mut ctx, [3; 32], 6, floor), Err(EscrowError::InsufficientFunds));
    assert_eq!(withdraw(&mut ctx, [3; 32], 5, floor), Ok(()));
    assert_eq!(ctx.vault.lamports, floor);
}
