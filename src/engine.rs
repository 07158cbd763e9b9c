use vstd::prelude::*;
use crate::address::Address;

verus! {

/// The `k` low bytes of `n`, least significant first.
pub open spec fn le_bytes(n: nat, k: nat) -> Seq<u8>
    decreases k,
{
    if k == 0 {
        seq![]
    } else {
        seq![(n % 256) as u8] + le_bytes(n / 256, (k - 1) as nat)
    }
}

/// An optional `u64` as the engine reads it: a tag byte, then the value.
pub open spec fn option_u64_bytes(o: Option<u64>) -> Seq<u8> {
    match o {
        None => seq![0u8],
        Some(v) => seq![1u8] + le_bytes(v as nat, 8),
    }
}

/// Appends the `k` low bytes of `x`, least significant first.
fn write_le(out: &mut Vec<u8>, x: u128, k: usize)
    requires
        k <= 16,
    ensures
        final(out)@ == old(out)@ + le_bytes(x as nat, k as nat),
{
    let mut v: u128 = x;
    let mut i: usize = 0;
    while i < k
        invariant
            i <= k,
            out@ + le_bytes(v as nat, (k - i) as nat) == old(out)@ + le_bytes(x as nat, k as nat),
        decreases k - i,
    {
        let ghost before = out@;
        let byte: u8 = (v % 256) as u8;
        out.push(byte);
        proof {
            let rest = (k - i - 1) as nat;
            assert(le_bytes(v as nat, (k - i) as nat) == seq![byte] + le_bytes((v / 256) as nat, rest));
            assert(before + le_bytes(v as nat, (k - i) as nat) =~= out@ + le_bytes((v / 256) as nat, rest));
        }
        v = v / 256;
        i = i + 1;
    }
    proof {
        assert(out@ =~= out@ + le_bytes(v as nat, 0));
    }
}

fn write_option_u64(out: &mut Vec<u8>, o: Option<u64>)
    ensures
        final(out)@ == old(out)@ + option_u64_bytes(o),
{
    match o {
        None => out.push(0u8),
        Some(v) => {
            out.push(1u8);
            write_le(out, v as u128, 8);
            proof {
                assert(out@ =~= old(out)@ + option_u64_bytes(o));
            }
        },
    }
}

/// Liquidity to add to a position, with the most of each token the caller
/// will pay for it.
#[derive(Clone, Copy, Debug)]
pub struct AddLiquidityParameters {
    pub liquidity_delta: u128,
    pub token_a_amount_threshold: u64,
    pub token_b_amount_threshold: u64,
}

/// Liquidity to take out of a position, with the least of each token the
/// caller will accept for it.
#[derive(Clone, Copy, Debug)]
pub struct RemoveLiquidityParameters {
    pub liquidity_delta: u128,
    pub token_a_amount_threshold: u64,
    pub token_b_amount_threshold: u64,
}

/// The vesting schedule that the engine enforces on a locked position.
#[derive(Clone, Copy, Debug)]
pub struct VestingParameters {
    pub cliff_point: Option<u64>,
    pub period_frequency: u64,
    pub cliff_unlock_liquidity: u128,
    pub liquidity_per_period: u128,
    pub number_of_period: u16,
}

/// One account of an instruction, with how the instruction uses it.
#[derive(Clone, Copy, Debug)]
pub struct AccountMeta {
    pub pubkey: Address,
    pub is_signer: bool,
    pub is_writable: bool,
}

pub open spec fn writable(pubkey: Address, is_signer: bool) -> AccountMeta {
    AccountMeta { pubkey, is_signer, is_writable: true }
}

pub open spec fn readonly(pubkey: Address, is_signer: bool) -> AccountMeta {
    AccountMeta { pubkey, is_signer, is_writable: false }
}

impl AccountMeta {
    pub fn new(pubkey: Address, is_signer: bool) -> (r: AccountMeta)
        ensures
            r == writable(pubkey, is_signer),
    {
        AccountMeta { pubkey, is_signer, is_writable: true }
    }

    pub fn new_readonly(pubkey: Address, is_signer: bool) -> (r: AccountMeta)
        ensures
            r == readonly(pubkey, is_signer),
    {
        AccountMeta { pubkey, is_signer, is_writable: false }
    }
}

/// A call into a program: its accounts in order, and its argument bytes.
#[derive(Clone, Debug)]
pub struct Instruction {
    pub program_id: Address,
    pub accounts: Vec<AccountMeta>,
    pub data: Vec<u8>,
}

/// Accounts of the engine's `create_position`.
#[derive(Clone, Copy, Debug)]
pub struct CreatePosition {
    pub owner: Address,
    pub position_nft_mint: Address,
    pub position_nft_account: Address,
    pub pool: Address,
    pub position: Address,
    pub pool_authority: Address,
    pub payer: Address,
    pub token_program: Address,
    pub system_program: Address,
    pub event_authority: Address,
    pub program: Address,
}

/// Accounts of the engine's `lock_position`.
#[derive(Clone, Copy, Debug)]
pub struct LockPosition {
    pub pool: Address,
    pub position: Address,
    pub vesting: Address,
    pub position_nft_account: Address,
    pub owner: Address,
    pub payer: Address,
    pub system_program: Address,
    pub event_authority: Address,
    pub program: Address,
}

/// Accounts of the engine's `add_liquidity`.
#[derive(Clone, Copy, Debug)]
pub struct AddLiquidity {
    pub pool: Address,
    pub position: Address,
    pub token_a_account: Address,
    pub token_b_account: Address,
    pub token_a_vault: Address,
    pub token_b_vault: Address,
    pub token_a_mint: Address,
    pub token_b_mint: Address,
    pub position_nft_account: Address,
    pub owner: Address,
    pub token_a_program: Address,
    pub token_b_program: Address,
    pub event_authority: Address,
    pub program: Address,
}

/// Accounts of the engine's `remove_liquidity` and `remove_all_liquidity`.
#[derive(Clone, Copy, Debug)]
pub struct RemoveLiquidity {
    pub pool_authority: Address,
    pub pool: Address,
    pub position: Address,
    pub token_a_account: Address,
    pub token_b_account: Address,
    pub token_a_vault: Address,
    pub token_b_vault: Address,
    pub token_a_mint: Address,
    pub token_b_mint: Address,
    pub position_nft_account: Address,
    pub owner: Address,
    pub token_a_program: Address,
    pub token_b_program: Address,
    pub event_authority: Address,
    pub program: Address,
}

pub open spec fn create_position_tag() -> Seq<u8> {
    seq![48u8, 215, 197, 153, 96, 203, 180, 133]
}

pub open spec fn add_liquidity_tag() -> Seq<u8> {
    seq![181u8, 157, 89, 67, 143, 182, 52, 72]
}

pub open spec fn lock_position_tag() -> Seq<u8> {
    seq![227u8, 62, 2, 252, 247, 10, 171, 185]
}

pub open spec fn remove_liquidity_tag() -> Seq<u8> {
    seq![80u8, 85, 209, 72, 24, 206, 177, 108]
}

pub open spec fn remove_all_liquidity_tag() -> Seq<u8> {
    seq![10u8, 51, 61, 35, 112, 105, 24, 85]
}

pub open spec fn create_position_metas(a: CreatePosition) -> Seq<AccountMeta> {
    seq![
        readonly(a.owner, true),
        writable(a.position_nft_mint, true),
        writable(a.position_nft_account, false),
        writable(a.pool, false),
        writable(a.position, false),
        readonly(a.pool_authority, false),
        writable(a.payer, true),
        readonly(a.token_program, false),
        readonly(a.system_program, false),
        readonly(a.event_authority, false),
        readonly(a.program, false),
    ]
}

pub open spec fn lock_position_metas(a: LockPosition) -> Seq<AccountMeta> {
    seq![
        readonly(a.pool, false),
        writable(a.position, false),
        writable(a.vesting, true),
        readonly(a.position_nft_account, false),
        readonly(a.owner, true),
        writable(a.payer, true),
        readonly(a.system_program, false),
        readonly(a.event_authority, false),
        readonly(a.program, false),
    ]
}

pub open spec fn add_liquidity_metas(a: AddLiquidity) -> Seq<AccountMeta> {
    seq![
        writable(a.pool, false),
        writable(a.position, false),
        writable(a.token_a_account, false),
        writable(a.token_b_account, false),
        writable(a.token_a_vault, false),
        writable(a.token_b_vault, false),
        readonly(a.token_a_mint, false),
        readonly(a.token_b_mint, false),
        readonly(a.position_nft_account, false),
        readonly(a.owner, true),
        readonly(a.token_a_program, false),
        readonly(a.token_b_program, false),
        readonly(a.event_authority, false),
        readonly(a.program, false),
    ]
}

pub open spec fn remove_liquidity_metas(a: RemoveLiquidity) -> Seq<AccountMeta> {
    seq![
        readonly(a.pool_authority, false),
        writable(a.pool, false),
        writable(a.position, false),
        writable(a.token_a_account, false),
        writable(a.token_b_account, false),
        writable(a.token_a_vault, false),
        writable(a.token_b_vault, false),
        readonly(a.token_a_mint, false),
        readonly(a.token_b_mint, false),
        readonly(a.position_nft_account, false),
        readonly(a.owner, true),
        readonly(a.token_a_program, false),
        readonly(a.token_b_program, false),
        readonly(a.event_authority, false),
        readonly(a.program, false),
    ]
}

pub open spec fn add_liquidity_data(p: AddLiquidityParameters) -> Seq<u8> {
    add_liquidity_tag() + le_bytes(p.liquidity_delta as nat, 16) + le_bytes(
        p.token_a_amount_threshold as nat,
        8,
    ) + le_bytes(p.token_b_amount_threshold as nat, 8)
}

pub open spec fn lock_position_data(p: VestingParameters) -> Seq<u8> {
    lock_position_tag() + option_u64_bytes(p.cliff_point) + le_bytes(p.period_frequency as nat, 8)
        + le_bytes(p.cliff_unlock_liquidity as nat, 16) + le_bytes(p.liquidity_per_period as nat, 16)
        + le_bytes(p.number_of_period as nat, 2)
}

pub open spec fn remove_liquidity_data(p: RemoveLiquidityParameters) -> Seq<u8> {
    remove_liquidity_tag() + le_bytes(p.liquidity_delta as nat, 16) + le_bytes(
        p.token_a_amount_threshold as nat,
        8,
    ) + le_bytes(p.token_b_amount_threshold as nat, 8)
}

pub open spec fn remove_all_liquidity_data(token_a_min: u64, token_b_min: u64) -> Seq<u8> {
    remove_all_liquidity_tag() + le_bytes(token_a_min as nat, 8) + le_bytes(token_b_min as nat, 8)
}

/// The engine call that opens a position and mints its control token to
/// `position_nft_account`.
pub fn create_position(a: &CreatePosition) -> (r: Instruction)
    ensures
        r.program_id == a.program,
        r.accounts@ == create_position_metas(*a),
        r.data@ == create_position_tag(),
{
    let accounts = vec![
        AccountMeta::new_readonly(a.owner, true),
        AccountMeta::new(a.position_nft_mint, true),
        AccountMeta::new(a.position_nft_account, false),
        AccountMeta::new(a.pool, false),
        AccountMeta::new(a.position, false),
        AccountMeta::new_readonly(a.pool_authority, false),
        AccountMeta::new(a.payer, true),
        AccountMeta::new_readonly(a.token_program, false),
        AccountMeta::new_readonly(a.system_program, false),
        AccountMeta::new_readonly(a.event_authority, false),
        AccountMeta::new_readonly(a.program, false),
    ];
    let data = vec![48u8, 215, 197, 153, 96, 203, 180, 133];
    proof {
        assert(accounts@ =~= create_position_metas(*a));
        assert(data@ =~= create_position_tag());
    }
    Instruction { program_id: a.program, accounts, data }
}

/// The engine call that puts a position under the vesting schedule `params`.
pub fn lock_position(a: &LockPosition, params: VestingParameters) -> (r: Instruction)
    ensures
        r.program_id == a.program,
        r.accounts@ == lock_position_metas(*a),
        r.data@ == lock_position_data(params),
{
    let accounts = vec![
        AccountMeta::new_readonly(a.pool, false),
        AccountMeta::new(a.position, false),
        AccountMeta::new(a.vesting, true),
        AccountMeta::new_readonly(a.position_nft_account, false),
        AccountMeta::new_readonly(a.owner, true),
        AccountMeta::new(a.payer, true),
        AccountMeta::new_readonly(a.system_program, false),
        AccountMeta::new_readonly(a.event_authority, false),
        AccountMeta::new_readonly(a.program, false),
    ];
    let mut data = vec![227u8, 62, 2, 252, 247, 10, 171, 185];
    write_option_u64(&mut data, params.cliff_point);
    write_le(&mut data, params.period_frequency as u128, 8);
    write_le(&mut data, params.cliff_unlock_liquidity, 16);
    write_le(&mut data, params.liquidity_per_period, 16);
    write_le(&mut data, params.number_of_period as u128, 2);
    proof {
        assert(accounts@ =~= lock_position_metas(*a));
        assert(data@ =~= lock_position_data(params));
    }
    Instruction { program_id: a.program, accounts, data }
}

/// The engine call that adds `params.liquidity_delta` to a position.
pub fn add_liquidity(a: &AddLiquidity, params: AddLiquidityParameters) -> (r: Instruction)
    ensures
        r.program_id == a.program,
        r.accounts@ == add_liquidity_metas(*a),
        r.data@ == add_liquidity_data(params),
{
    let accounts = vec![
        AccountMeta::new(a.pool, false),
        AccountMeta::new(a.position, false),
        AccountMeta::new(a.token_a_account, false),
        AccountMeta::new(a.token_b_account, false),
        AccountMeta::new(a.token_a_vault, false),
        AccountMeta::new(a.token_b_vault, false),
        AccountMeta::new_readonly(a.token_a_mint, false),
        AccountMeta::new_readonly(a.token_b_mint, false),
        AccountMeta::new_readonly(a.position_nft_account, false),
        AccountMeta::new_readonly(a.owner, true),
        AccountMeta::new_readonly(a.token_a_program, false),
        AccountMeta::new_readonly(a.token_b_program, false),
        AccountMeta::new_readonly(a.event_authority, false),
        AccountMeta::new_readonly(a.program, false),
    ];
    let mut data = vec![181u8, 157, 89, 67, 143, 182, 52, 72];
    write_le(&mut data, params.liquidity_delta, 16);
    write_le(&mut data, params.token_a_amount_threshold as u128, 8);
    write_le(&mut data, params.token_b_amount_threshold as u128, 8);
    proof {
        assert(accounts@ =~= add_liquidity_metas(*a));
        assert(data@ =~= add_liquidity_data(params));
    }
    Instruction { program_id: a.program, accounts, data }
}

fn remove_liquidity_accounts(a: &RemoveLiquidity) -> (r: Vec<AccountMeta>)
    ensures
        r@ == remove_liquidity_metas(*a),
{
    let accounts = vec![
        AccountMeta::new_readonly(a.pool_authority, false),
        AccountMeta::new(a.pool, false),
        AccountMeta::new(a.position, false),
        AccountMeta::new(a.token_a_account, false),
        AccountMeta::new(a.token_b_account, false),
        AccountMeta::new(a.token_a_vault, false),
        AccountMeta::new(a.token_b_vault, false),
        AccountMeta::new_readonly(a.token_a_mint, false),
        AccountMeta::new_readonly(a.token_b_mint, false),
        AccountMeta::new_readonly(a.position_nft_account, false),
        AccountMeta::new_readonly(a.owner, true),
        AccountMeta::new_readonly(a.token_a_program, false),
        AccountMeta::new_readonly(a.token_b_program, false),
        AccountMeta::new_readonly(a.event_authority, false),
        AccountMeta::new_readonly(a.program, false),
    ];
    proof {
        assert(accounts@ =~= remove_liquidity_metas(*a));
    }
    accounts
}

/// The engine call that takes `params.liquidity_delta` out of a position.
pub fn remove_liquidity(a: &RemoveLiquidity, params: RemoveLiquidityParameters) -> (r: Instruction)
    ensures
        r.program_id == a.program,
        r.accounts@ == remove_liquidity_metas(*a),
        r.data@ == remove_liquidity_data(params),
{
    let accounts = remove_liquidity_accounts(a);
    let mut data = vec![80u8, 85, 209, 72, 24, 206, 177, 108];
    write_le(&mut data, params.liquidity_delta, 16);
    write_le(&mut data, params.token_a_amount_threshold as u128, 8);
    write_le(&mut data, params.token_b_amount_threshold as u128, 8);
    proof {
        assert(data@ =~= remove_liquidity_data(params));
    }
    Instruction { program_id: a.program, accounts, data }
}

/// The engine call that takes all liquidity out of a position.
pub fn remove_all_liquidity(a: &RemoveLiquidity, token_a_min: u64, token_b_min: u64) -> (r: Instruction)
    ensures
        r.program_id == a.program,
        r.accounts@ == remove_liquidity_metas(*a),
        r.data@ == remove_all_liquidity_data(token_a_min, token_b_min),
{
    let accounts = remove_liquidity_accounts(a);
    let mut data = vec![10u8, 51, 61, 35, 112, 105, 24, 85];
    write_le(&mut data, token_a_min as u128, 8);
    write_le(&mut data, token_b_min as u128, 8);
    proof {
        assert(data@ =~= remove_all_liquidity_data(token_a_min, token_b_min));
    }
    Instruction { program_id: a.program, accounts, data }
}

/// One call into the engine, with its accounts and arguments.
#[derive(Clone, Copy, Debug)]
pub enum EngineCall {
    CreatePosition(CreatePosition),
    AddLiquidity(AddLiquidity, AddLiquidityParameters),
    LockPosition(LockPosition, VestingParameters),
    RemoveLiquidity(RemoveLiquidity, RemoveLiquidityParameters),
    RemoveAllLiquidity(RemoveLiquidity, u64, u64),
}

impl EngineCall {
    pub open spec fn program(self) -> Address {
        match self {
            EngineCall::CreatePosition(a) => a.program,
            EngineCall::AddLiquidity(a, _) => a.program,
            EngineCall::LockPosition(a, _) => a.program,
            EngineCall::RemoveLiquidity(a, _) => a.program,
            EngineCall::RemoveAllLiquidity(a, _, _) => a.program,
        }
    }

    pub open spec fn metas(self) -> Seq<AccountMeta> {
        match self {
            EngineCall::CreatePosition(a) => create_position_metas(a),
            EngineCall::AddLiquidity(a, _) => add_liquidity_metas(a),
            EngineCall::LockPosition(a, _) => lock_position_metas(a),
            EngineCall::RemoveLiquidity(a, _) => remove_liquidity_metas(a),
            EngineCall::RemoveAllLiquidity(a, _, _) => remove_liquidity_metas(a),
        }
    }

    pub open spec fn data(self) -> Seq<u8> {
        match self {
            EngineCall::CreatePosition(_) => create_position_tag(),
            EngineCall::AddLiquidity(_, p) => add_liquidity_data(p),
            EngineCall::LockPosition(_, p) => lock_position_data(p),
            EngineCall::RemoveLiquidity(_, p) => remove_liquidity_data(p),
            EngineCall::RemoveAllLiquidity(_, a_min, b_min) => remove_all_liquidity_data(a_min, b_min),
        }
    }

    /// The instruction that carries out the call.
    pub fn instruction(&self) -> (r: Instruction)
        ensures
            r.program_id == self.program(),
            r.accounts@ == self.metas(),
            r.data@ == self.data(),
    {
        match self {
            EngineCall::CreatePosition(a) => create_position(a),
            EngineCall::AddLiquidity(a, p) => add_liquidity(a, *p),
            EngineCall::LockPosition(a, p) => lock_position(a, *p),
            EngineCall::RemoveLiquidity(a, p) => remove_liquidity(a, *p),
            EngineCall::RemoveAllLiquidity(a, a_min, b_min) => remove_all_liquidity(a, *a_min, *b_min),
        }
    }
}

} // verus!
