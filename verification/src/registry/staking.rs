//! Tokens staked for workers.

use vstd::prelude::*;

use super::figures;
use super::laws;
use super::{at, DataKey, RegistryContract, RegistryState, StakeInfo, WorkerView};
use crate::error::ContractError;
use crate::host::{requests_come_in_order, Call, Data, Env, Topics, Val};
use crate::ledger::pays;
use crate::roles;
use crate::roles::{both, pause_verdict, refuse_if};
use crate::values::{Address, Symbol};

verus! {

/// Part of a stake that is earned in one second at a rate of one.
pub const REWARD_DENOMINATOR: i128 = 10_000_000;

/// Seconds from `since` to `now`; none, where `now` is the earlier.
pub open spec fn elapsed(since: u64, now: u64) -> int {
    if now > since {
        now - since
    } else {
        0
    }
}

impl StakeInfo {
    /// What the stake has earned since rewards were last counted.
    pub open spec fn earned(self, now: u64) -> int {
        self.amount * RegistryContract::REWARD_RATE_BPS_PER_1000_SECS * elapsed(
            self.last_reward_ledger,
            now,
        ) / (REWARD_DENOMINATOR as int)
    }

    /// All that the stake has earned.
    pub open spec fn rewards(self, now: u64) -> int {
        self.rewards_accumulated + self.earned(now)
    }

    /// The stake once `amount` was added at the time `now`: rewards are counted up to then, and
    /// a request to get it back is withdrawn.
    pub open spec fn raised(self, amount: i128, now: u64) -> StakeInfo {
        StakeInfo {
            token: self.token,
            amount: (self.amount + amount) as i128,
            unstake_requested_at: 0,
            rewards_accumulated: self.rewards(now) as i128,
            last_reward_ledger: now,
        }
    }

    /// The stake once it was paid back.
    pub open spec fn paid_back(self) -> StakeInfo {
        StakeInfo { amount: 0, rewards_accumulated: 0, unstake_requested_at: 0, ..self }
    }

    /// Whether the rewards up to `now` can be computed without exceeding an `i128`.
    pub open spec fn countable(self, now: u64) -> bool {
        &&& self.amount * elapsed(self.last_reward_ledger, now) <= i128::MAX
        &&& self.rewards(now) <= i128::MAX
    }
}

impl RegistryState {
    /// The stake of the worker `id`; an empty one in `token`, where there is none.
    pub open spec fn stake_of(self, id: Seq<char>, token: Address, now: u64) -> StakeInfo {
        if self.stakes.contains_key(id) {
            self.stakes[id]
        } else {
            StakeInfo {
                token,
                amount: 0,
                unstake_requested_at: 0,
                rewards_accumulated: 0,
                last_reward_ledger: now,
            }
        }
    }

    /// What `stake` answers.
    pub open spec fn stake_verdict(self, caller: Seq<char>, id: Seq<char>, amount: i128) -> Result<
        (),
        ContractError,
    > {
        both(
            pause_verdict(self.paused),
            both(
                refuse_if(amount <= 0, ContractError::AmountMustBePositive),
                self.owner_verdict(id, caller),
            ),
        )
    }

    /// What an entry point answers that needs a stake of the worker `id`, which must be the
    /// caller's.
    pub open spec fn staked_verdict(self, caller: Seq<char>, id: Seq<char>) -> Result<
        (),
        ContractError,
    > {
        both(
            self.owner_unpaused(id, caller),
            refuse_if(
                !self.stakes.contains_key(id) || self.stakes[id].amount <= 0,
                ContractError::NoActiveStake,
            ),
        )
    }

    /// What `request_unstake` answers.
    pub open spec fn request_unstake_verdict(self, caller: Seq<char>, id: Seq<char>) -> Result<
        (),
        ContractError,
    > {
        both(
            self.staked_verdict(caller, id),
            refuse_if(
                self.stakes[id].unstake_requested_at != 0,
                ContractError::UnstakeAlreadyRequested,
            ),
        )
    }

    /// What `unstake` answers, as far as the stake was asked back.
    pub open spec fn requested_verdict(self, caller: Seq<char>, id: Seq<char>) -> Result<
        (),
        ContractError,
    > {
        both(
            self.staked_verdict(caller, id),
            refuse_if(
                self.stakes[id].unstake_requested_at == 0,
                ContractError::UnstakeNotRequested,
            ),
        )
    }

    /// What `unstake` answers at the time `now`.
    pub open spec fn unstake_verdict(self, caller: Seq<char>, id: Seq<char>, now: u64) -> Result<
        (),
        ContractError,
    > {
        both(
            self.requested_verdict(caller, id),
            refuse_if(
                now < self.stakes[id].unstake_requested_at
                    + RegistryContract::UNSTAKE_COOLDOWN_SECS,
                ContractError::CooldownNotElapsed,
            ),
        )
    }

    /// The state in which the stake of the worker `id` was asked back at the time `now`.
    pub open spec fn unstake_requested(self, id: Seq<char>, now: u64) -> RegistryState {
        RegistryState {
            stakes: self.stakes.insert(
                id,
                StakeInfo { unstake_requested_at: now, ..self.stakes[id] },
            ),
            ..self
        }
    }

    /// The state in which the stake of the worker `id` is `info`.
    pub open spec fn with_stake(self, id: Seq<char>, info: StakeInfo) -> RegistryState {
        RegistryState {
            stakes: self.stakes.insert(id, info),
            workers: self.workers.insert(
                id,
                WorkerView { staked_amount: info.amount, ..self.workers[id] },
            ),
            ..self
        }
    }
}

/// What is asked of the host when `amount` is staked, which makes the stake `info`.
pub open spec fn stake_calls(
    contract: Address,
    caller: Address,
    id: Symbol,
    token: Address,
    amount: i128,
    info: StakeInfo,
) -> Seq<Call<DataKey>> {
    seq![
        Call::RequireAuth(caller),
        Call::Transfer { token, from: caller, to: contract, amount },
        Call::Write(DataKey::StakeInfo(id)),
        Call::Write(DataKey::Worker(id)),
        Call::Publish {
            topics: Topics::Three("Staked", Val::Symbol(id), Val::Address(caller)),
            data: Data::Two(Val::I128(amount), Val::I128(info.amount)),
        },
    ]
}

/// What is asked of the host when the stake `info` and its rewards are paid back.
pub open spec fn unstake_calls(
    contract: Address,
    caller: Address,
    id: Symbol,
    info: StakeInfo,
    rewards: int,
) -> Seq<Call<DataKey>> {
    seq![
        Call::RequireAuth(caller),
        Call::Transfer {
            token: info.token,
            from: contract,
            to: caller,
            amount: (info.amount + rewards) as i128,
        },
        Call::Write(DataKey::StakeInfo(id)),
        Call::Write(DataKey::Worker(id)),
        Call::Publish {
            topics: Topics::Three("Unstaked", Val::Symbol(id), Val::Address(caller)),
            data: Data::Two(Val::I128(info.amount), Val::I128(rewards as i128)),
        },
    ]
}

impl StakeInfo {
    /// What the stake has earned since rewards were last counted.
    fn count_earned(&self, now: u64) -> (r: i128)
        requires
            self.amount >= 0,
            self.amount * elapsed(self.last_reward_ledger, now) <= i128::MAX,
        ensures
            r == self.earned(now),
            r >= 0,
            now >= self.last_reward_ledger ==> r * 10_000_000 <= self.amount * (now
                - self.last_reward_ledger) < (r + 1) * 10_000_000,
    {
        let passed: u64 = if now > self.last_reward_ledger {
            now - self.last_reward_ledger
        } else {
            0
        };
        proof {
            assert(self.amount * passed >= 0) by (nonlinear_arith)
                requires
                    self.amount >= 0,
            ;
            assert(self.amount * 1 * passed == self.amount * passed) by (nonlinear_arith);
            figures::rewards_are_earned_every_second(*self, now);
        }
        let rate: i128 = RegistryContract::REWARD_RATE_BPS_PER_1000_SECS;
        self.amount * rate * passed as i128 / REWARD_DENOMINATOR
    }
}

impl StakeInfo {
    /// All that the stake has earned up to `now`, where it can be computed without exceeding an
    /// `i128`.
    pub fn rewards_up_to(&self, now: u64) -> (r: Option<i128>)
        requires
            self.amount >= 0,
            self.rewards_accumulated >= 0,
        ensures
            r == if self.countable(now) {
                Some(self.rewards(now) as i128)
            } else {
                None
            },
    {
        let passed: u64 = if now > self.last_reward_ledger {
            now - self.last_reward_ledger
        } else {
            0
        };
        match self.amount.checked_mul(passed as i128) {
            Some(_) => {
                let earned: i128 = self.count_earned(now);
                self.rewards_accumulated.checked_add(earned)
            },
            None => {
                proof {
                    assert(self.amount * passed >= 0) by (nonlinear_arith)
                        requires
                            self.amount >= 0,
                    ;
                }
                None
            },
        }
    }
}

impl RegistryContract {
    /// Seconds between asking a stake back and getting it.
    pub const UNSTAKE_COOLDOWN_SECS: u64 = 604_800;

    /// Basis points that a stake earns in a thousand seconds.
    pub const REWARD_RATE_BPS_PER_1000_SECS: i128 = 1;

    /// Whether `stake` lets `caller` stake `amount` for a worker.
    pub fn check_stake(&self, caller: &Address, worker_id: &Symbol, amount: i128) -> (r: Result<
        (),
        ContractError,
    >)
        ensures
            r == self@.stake_verdict(caller@, worker_id@, amount),
    {
        roles::require_not_paused(self.paused)?;
        if amount <= 0 {
            return Err(ContractError::AmountMustBePositive);
        }
        self.require_owner(worker_id, caller)
    }

    /// Whether `caller` has asked the stake of a worker back.
    pub fn check_requested(&self, caller: &Address, worker_id: &Symbol) -> (r: Result<
        (),
        ContractError,
    >)
        ensures
            r == self@.requested_verdict(caller@, worker_id@),
    {
        roles::require_not_paused(self.paused)?;
        self.require_owner(worker_id, caller)?;
        match self.stakes.get(worker_id) {
            None => Err(ContractError::NoActiveStake),
            Some(info) => {
                if info.amount <= 0 {
                    return Err(ContractError::NoActiveStake);
                }
                if info.unstake_requested_at == 0 {
                    return Err(ContractError::UnstakeNotRequested);
                }
                Ok(())
            },
        }
    }

    /// Whether `unstake` pays the stake of a worker back to `caller` at the time `now`.
    pub fn check_unstake(&self, caller: &Address, worker_id: &Symbol, now: u64) -> (r: Result<
        (),
        ContractError,
    >)
        requires
            self@.requested_verdict(caller@, worker_id@) is Ok
                ==> self@.stakes[worker_id@].unstake_requested_at + Self::UNSTAKE_COOLDOWN_SECS
                <= u64::MAX,
        ensures
            r == self@.unstake_verdict(caller@, worker_id@, now),
    {
        self.check_requested(caller, worker_id)?;
        match self.stakes.get(worker_id) {
            None => Err(ContractError::NoActiveStake),
            Some(info) => {
                if now < info.unstake_requested_at + Self::UNSTAKE_COOLDOWN_SECS {
                    return Err(ContractError::CooldownNotElapsed);
                }
                Ok(())
            },
        }
    }

    /// Stake `amount` for a worker. Only the owner may call. A request to get the stake back is
    /// withdrawn.
    pub fn stake(
        &mut self,
        env: &mut Env<DataKey>,
        caller: Address,
        worker_id: Symbol,
        token_addr: Address,
        amount: i128,
    ) -> (r: Result<(), ContractError>)
        requires
            old(self)@.wf(),
            old(self)@.stake_verdict(caller@, worker_id@, amount) is Ok ==> {
                let info = old(self)@.stake_of(worker_id@, token_addr, old(env).timestamp);
                &&& info.countable(old(env).timestamp)
                &&& info.amount + amount <= i128::MAX
            },
        ensures
            final(self)@.wf(),
            r == old(self)@.verdict(
                (laws::Op::Stake { caller, id: worker_id, token: token_addr, amount }),
                old(env).timestamp,
                old(env).sequence,
            ),
            final(self)@ == old(self)@.after(
                (laws::Op::Stake { caller, id: worker_id, token: token_addr, amount }),
                old(env).timestamp,
                old(env).sequence,
            ),
            r == old(self)@.stake_verdict(caller@, worker_id@, amount),
            r is Err ==> final(self)@ == old(self)@ && final(env).did(
                *old(env),
                seq![Call::RequireAuth(caller)],
            ),
            r is Ok ==> {
                let now = old(env).timestamp;
                let info = old(self)@.stake_of(worker_id@, token_addr, now);
                &&& final(self)@ == old(self)@.with_stake(worker_id@, info.raised(amount, now))
                &&& final(env).did(
                    *old(env),
                    stake_calls(
                        old(env).contract,
                        caller,
                        worker_id,
                        token_addr,
                        amount,
                        info.raised(amount, now),
                    ),
                )
                &&& pays(
                    final(env).asked_since(*old(env)),
                    token_addr@,
                    caller@,
                    old(env).contract@,
                    amount as int,
                )
            },
    {
        env.require_auth(&caller);
        self.check_stake(&caller, &worker_id, amount)?;
        let contract = env.contract.clone();
        env.transfer(&token_addr, &caller, &contract, amount);
        let now: u64 = env.timestamp;
        let mut info = match self.stakes.get(&worker_id) {
            Some(info) => info.clone(),
            None => StakeInfo {
                token: token_addr,
                amount: 0,
                unstake_requested_at: 0,
                rewards_accumulated: 0,
                last_reward_ledger: now,
            },
        };
        let earned: i128 = info.count_earned(now);
        info.rewards_accumulated = info.rewards_accumulated + earned;
        info.last_reward_ledger = now;
        info.amount = info.amount + amount;
        info.unstake_requested_at = 0;
        let total: i128 = info.amount;
        self.stakes.set(worker_id.clone(), info);
        env.write(DataKey::StakeInfo(worker_id.clone()));
        match self.workers.get_mut(&worker_id) {
            Some(worker) => {
                worker.staked_amount = total;
            },
            None => {},
        }
        env.write(DataKey::Worker(worker_id.clone()));
        env.publish(
            Topics::Three("Staked", Val::Symbol(worker_id), Val::Address(caller)),
            Data::Two(Val::I128(amount), Val::I128(total)),
        );
        proof {
            let c = old(env).contract;
            let info = old(self)@.stake_of(worker_id@, token_addr, now).raised(amount, now);
            figures::staking_takes_the_amount_from_the_caller(
                c,
                caller,
                worker_id,
                token_addr,
                amount,
                info,
            );
            requests_come_in_order(
                *old(env),
                *env,
                stake_calls(c, caller, worker_id, token_addr, amount, info),
            );
        }
        Ok(())
    }

    /// Ask a stake back; the cooldown starts. Only the owner may call.
    pub fn request_unstake(&mut self, env: &mut Env<DataKey>, caller: Address, worker_id: Symbol)
        -> (r: Result<(), ContractError>)
        requires
            old(self)@.wf(),
        ensures
            final(self)@.wf(),
            r == old(self)@.verdict(
                (laws::Op::RequestUnstake { caller, id: worker_id }),
                old(env).timestamp,
                old(env).sequence,
            ),
            final(self)@ == old(self)@.after(
                (laws::Op::RequestUnstake { caller, id: worker_id }),
                old(env).timestamp,
                old(env).sequence,
            ),
            r == old(self)@.request_unstake_verdict(caller@, worker_id@),
            r is Err ==> final(self)@ == old(self)@ && final(env).did(
                *old(env),
                seq![Call::RequireAuth(caller)],
            ),
            r is Ok ==> {
                let now = old(env).timestamp;
                &&& final(self)@ == old(self)@.unstake_requested(worker_id@, now)
                &&& final(env).did(
                    *old(env),
                    seq![
                        Call::RequireAuth(caller),
                        Call::Write(DataKey::StakeInfo(worker_id)),
                        Call::Publish {
                            topics: Topics::Three(
                                "UnstakeRq",
                                Val::Symbol(worker_id),
                                Val::Address(caller),
                            ),
                            data: Data::One(Val::U64(now)),
                        },
                    ],
                )
            },
    {
        env.require_auth(&caller);
        roles::require_not_paused(self.paused)?;
        self.require_owner(&worker_id, &caller)?;
        match self.stakes.get_mut(&worker_id) {
            None => Err(ContractError::NoActiveStake),
            Some(info) => {
                if info.amount <= 0 {
                    return Err(ContractError::NoActiveStake);
                }
                if info.unstake_requested_at != 0 {
                    return Err(ContractError::UnstakeAlreadyRequested);
                }
                let now: u64 = env.timestamp;
                info.unstake_requested_at = now;
                env.write(DataKey::StakeInfo(worker_id.clone()));
                env.publish(
                    Topics::Three("UnstakeRq", Val::Symbol(worker_id), Val::Address(caller)),
                    Data::One(Val::U64(now)),
                );
                Ok(())
            },
        }
    }

    /// Pay a stake and its rewards back, once the cooldown is over. Only the owner may call.
    pub fn unstake(&mut self, env: &mut Env<DataKey>, caller: Address, worker_id: Symbol) -> (r:
        Result<(), ContractError>)
        requires
            old(self)@.wf(),
            old(self)@.requested_verdict(caller@, worker_id@) is Ok
                ==> old(self)@.stakes[worker_id@].unstake_requested_at
                + Self::UNSTAKE_COOLDOWN_SECS <= u64::MAX,
            old(self)@.unstake_verdict(caller@, worker_id@, old(env).timestamp) is Ok ==> {
                let info = old(self)@.stakes[worker_id@];
                &&& info.countable(old(env).timestamp)
                &&& info.amount + info.rewards(old(env).timestamp) <= i128::MAX
            },
        ensures
            final(self)@.wf(),
            r == old(self)@.verdict(
                (laws::Op::Unstake { caller, id: worker_id }),
                old(env).timestamp,
                old(env).sequence,
            ),
            final(self)@ == old(self)@.after(
                (laws::Op::Unstake { caller, id: worker_id }),
                old(env).timestamp,
                old(env).sequence,
            ),
            r == old(self)@.unstake_verdict(caller@, worker_id@, old(env).timestamp),
            r is Err ==> final(self)@ == old(self)@ && final(env).did(
                *old(env),
                seq![Call::RequireAuth(caller)],
            ),
            r is Ok ==> {
                let info = old(self)@.stakes[worker_id@];
                let rewards = info.rewards(old(env).timestamp);
                &&& final(self)@ == old(self)@.with_stake(worker_id@, info.paid_back())
                &&& final(env).did(
                    *old(env),
                    unstake_calls(old(env).contract, caller, worker_id, info, rewards),
                )
                &&& pays(
                    final(env).asked_since(*old(env)),
                    info.token@,
                    old(env).contract@,
                    caller@,
                    info.amount + info.rewards_accumulated + info.earned(old(env).timestamp),
                )
            },
    {
        env.require_auth(&caller);
        let now: u64 = env.timestamp;
        self.check_unstake(&caller, &worker_id, now)?;
        match self.stakes.get_mut(&worker_id) {
            None => return Err(ContractError::NoActiveStake),
            Some(info) => {
                let earned: i128 = info.count_earned(now);
                let rewards: i128 = info.rewards_accumulated + earned;
                let staked: i128 = info.amount;
                let contract = env.contract.clone();
                env.transfer(&info.token, &contract, &caller, staked + rewards);
                info.amount = 0;
                info.rewards_accumulated = 0;
                info.unstake_requested_at = 0;
                env.write(DataKey::StakeInfo(worker_id.clone()));
                env.write(DataKey::Worker(worker_id.clone()));
                env.publish(
                    Topics::Three(
                        "Unstaked",
                        Val::Symbol(worker_id.clone()),
                        Val::Address(caller),
                    ),
                    Data::Two(Val::I128(staked), Val::I128(rewards)),
                );
            },
        }
        match self.workers.get_mut(&worker_id) {
            Some(worker) => {
                worker.staked_amount = 0;
            },
            None => {},
        }
        proof {
            let c = old(env).contract;
            let info = old(self)@.stakes[worker_id@];
            figures::unstaking_pays_stake_and_rewards(c, caller, worker_id, info, now);
            requests_come_in_order(
                *old(env),
                *env,
                unstake_calls(c, caller, worker_id, info, info.rewards(now)),
            );
        }
        Ok(())
    }

    /// The stake of the worker `worker_id`.
    pub fn get_stake_info(&self, worker_id: Symbol) -> (r: Result<
        Option<StakeInfo>,
        ContractError,
    >)
        ensures
            r == Ok::<Option<StakeInfo>, ContractError>(at(self@.stakes, worker_id@)),
    {
        match self.stakes.get(&worker_id) {
            Some(info) => Ok(Some(info.clone())),
            None => Ok(None),
        }
    }
}

} // verus!
