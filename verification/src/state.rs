//! The records of a pool: the pool itself, one record per member, and the
//! vault, each with the mathematical value that the contracts speak of.

use vstd::prelude::*;
use crate::identity::Identity;

verus! {

/// The asset a pool is denominated in.
#[derive(Clone, Copy, Debug, PartialEq, Eq, Structural)]
pub enum CurrencyType {
    /// The ledger's native asset.
    SOL,
    /// A fungible token, held in token accounts.
    USDC,
}

/// How long the pool as a whole must wait between two contributions.
#[derive(Clone, Copy, Debug, PartialEq, Eq, Structural)]
pub enum CyclePeriod {
    Weekly,
    Monthly,
}

impl Default for CurrencyType {
    fn default() -> (currency: CurrencyType)
        ensures
            currency == CurrencyType::SOL,
    {
        CurrencyType::SOL
    }
}

impl Default for CyclePeriod {
    fn default() -> (period: CyclePeriod)
        ensures
            period == CyclePeriod::Monthly,
    {
        CyclePeriod::Monthly
    }
}

/// Seconds in one day.
pub const SECONDS_PER_DAY: i64 = 86_400;

/// The smallest group that can form a pool.
pub const MIN_MEMBERS: u8 = 2;

/// The largest group that can form a pool.
pub const MAX_MEMBERS: u8 = 10;

impl CyclePeriod {
    /// The least number of seconds between two contributions to one pool:
    /// seven days for a weekly pool, thirty for a monthly one.
    pub open spec fn interval_seconds(self) -> int {
        match self {
            CyclePeriod::Weekly => 604_800int,
            CyclePeriod::Monthly => 2_592_000int,
        }
    }

    /// Computes [`CyclePeriod::interval_seconds`].
    pub fn interval(&self) -> (seconds: i64)
        ensures
            seconds == self.interval_seconds(),
    {
        match self {
            CyclePeriod::Weekly => 7 * SECONDS_PER_DAY,
            CyclePeriod::Monthly => 30 * SECONDS_PER_DAY,
        }
    }
}

/// One entry of a payout order: a member and the position it claimed.
pub type Slot = (Identity, u8);

/// The shared configuration and cycle state of one savings group.
#[derive(Clone, Debug, PartialEq, Eq)]
pub struct PoolAccount {
    /// The founding participant.
    pub creator: Identity,
    /// Tells the founder's pools apart.
    pub pool_id: u64,
    pub currency: CurrencyType,
    /// What each member pays in each cycle.
    pub contribution_amount: u64,
    /// The size the group must reach.
    pub total_members: u8,
    /// How many have joined, the founder included.
    pub member_count: u8,
    /// The members in the order in which they joined.
    pub members: Vec<Identity>,
    /// Each member with its position; in joining order while the pool forms,
    /// in ascending position once it is active.
    pub payout_order: Vec<Slot>,
    /// How many payouts have been made; the index of the next recipient.
    pub current_cycle: u8,
    pub total_cycles: u8,
    pub cycle_period: CyclePeriod,
    /// When the pool last accepted a contribution; zero before the first.
    pub last_contribution_time: i64,
    /// False while the pool forms, true from the moment it is full.
    pub active: bool,
    /// The bump of the pool's derived address.
    pub bump: u8,
}

/// The value of a [`PoolAccount`].
pub struct PoolState {
    pub creator: Identity,
    pub pool_id: u64,
    pub currency: CurrencyType,
    pub contribution_amount: u64,
    pub total_members: u8,
    pub member_count: u8,
    pub members: Seq<Identity>,
    pub payout_order: Seq<Slot>,
    pub current_cycle: u8,
    pub total_cycles: u8,
    pub cycle_period: CyclePeriod,
    pub last_contribution_time: i64,
    pub active: bool,
    pub bump: u8,
}

impl View for PoolAccount {
    type V = PoolState;

    open spec fn view(&self) -> PoolState {
        PoolState {
            creator: self.creator,
            pool_id: self.pool_id,
            currency: self.currency,
            contribution_amount: self.contribution_amount,
            total_members: self.total_members,
            member_count: self.member_count,
            members: self.members@,
            payout_order: self.payout_order@,
            current_cycle: self.current_cycle,
            total_cycles: self.total_cycles,
            cycle_period: self.cycle_period,
            last_contribution_time: self.last_contribution_time,
            active: self.active,
            bump: self.bump,
        }
    }
}

/// The positions of `order` ascend from its first entry to its last.
pub open spec fn ascending(order: Seq<Slot>) -> bool {
    forall|i: int, j: int| 0 <= i < j < order.len() ==> order[i].1 <= order[j].1
}

/// No position occurs twice in `order`.
pub open spec fn positions_distinct(order: Seq<Slot>) -> bool {
    forall|i: int, j: int| 0 <= i < j < order.len() ==> order[i].1 != order[j].1
}

/// No member occurs twice in `order`.
pub open spec fn holders_distinct(order: Seq<Slot>) -> bool {
    forall|i: int, j: int| 0 <= i < j < order.len() ==> order[i].0 != order[j].0
}

/// Some entry of `order` holds `position`.
pub open spec fn position_taken(order: Seq<Slot>, position: u8) -> bool {
    exists|i: int| 0 <= i < order.len() && (#[trigger] order[i]).1 == position
}

impl PoolState {
    /// What holds of every pool that was created and then only joined,
    /// contributed to and paid out from.
    pub open spec fn well_formed(self) -> bool {
        &&& MIN_MEMBERS <= self.total_members <= MAX_MEMBERS
        &&& self.contribution_amount > 0
        &&& self.total_cycles > 0
        &&& 1 <= self.member_count <= self.total_members
        &&& self.members.len() == self.member_count
        &&& self.payout_order.len() == self.member_count
        &&& self.members.no_duplicates()
        &&& self.members[0] == self.creator
        &&& forall|i: int|
            0 <= i < self.payout_order.len() ==> self.members.contains(
                (#[trigger] self.payout_order[i]).0,
            )
        &&& forall|i: int|
            0 <= i < self.payout_order.len() ==> 1 <= (#[trigger] self.payout_order[i]).1
                <= self.total_members
        &&& holders_distinct(self.payout_order)
        &&& positions_distinct(self.payout_order)
        &&& self.active <==> self.member_count == self.total_members
        &&& self.active ==> ascending(self.payout_order)
        &&& !self.active ==> forall|i: int|
            0 <= i < self.payout_order.len() ==> (#[trigger] self.payout_order[i]).0
                == self.members[i]
        &&& !self.active ==> self.current_cycle == 0 && self.last_contribution_time == 0
        &&& self.current_cycle <= self.total_cycles
        &&& self.current_cycle <= self.member_count
    }

    /// No payout is left: every cycle has been paid, or every member has collected.
    pub open spec fn completed(self) -> bool {
        self.current_cycle >= self.total_cycles || self.current_cycle >= self.payout_order.len()
    }

    /// What one payout moves: every member's contribution for one round.
    pub open spec fn payout_amount(self) -> int {
        self.contribution_amount * self.total_members
    }
}

/// One participant's record in one pool.
#[derive(Clone, Debug, PartialEq, Eq)]
pub struct MemberAccount {
    pub wallet: Identity,
    /// The pool this record belongs to.
    pub pool: Identity,
    /// Whether this member's payout has been made.
    pub has_collected: bool,
    /// How many contributions of this member were accepted.
    pub contributions_made: u8,
    /// The position claimed on joining.
    pub payout_position: u8,
    /// Answers given on joining; stored, never read.
    pub questionnaire_answers: Vec<String>,
    /// The bump of the record's derived address.
    pub bump: u8,
}

/// The characters of each string of `answers`.
pub open spec fn texts(answers: Seq<String>) -> Seq<Seq<char>> {
    answers.map_values(|s: String| s@)
}

/// The value of a [`MemberAccount`].
pub struct MemberState {
    pub wallet: Identity,
    pub pool: Identity,
    pub has_collected: bool,
    pub contributions_made: u8,
    pub payout_position: u8,
    pub questionnaire_answers: Seq<Seq<char>>,
    pub bump: u8,
}

impl View for MemberAccount {
    type V = MemberState;

    open spec fn view(&self) -> MemberState {
        MemberState {
            wallet: self.wallet,
            pool: self.pool,
            has_collected: self.has_collected,
            contributions_made: self.contributions_made,
            payout_position: self.payout_position,
            questionnaire_answers: texts(self.questionnaire_answers@),
            bump: self.bump,
        }
    }
}

impl MemberState {
    /// This record is the one that `pool`, found at `pool_key`, keeps for its wallet.
    pub open spec fn belongs_to(self, pool: PoolState, pool_key: Identity) -> bool {
        &&& self.pool == pool_key
        &&& pool.payout_order.contains((self.wallet, self.payout_position))
        &&& self.contributions_made <= pool.total_cycles
    }
}

/// The account that holds one pool's funds.
#[derive(Clone, Copy, Debug, PartialEq, Eq)]
pub struct VaultAccount {
    /// The pool whose funds these are.
    pub pool: Identity,
    /// A running total kept for information; the funds themselves are
    /// whatever the custodian holds.
    pub amount: u64,
    /// The bump of the vault's derived address.
    pub bump: u8,
}

impl Default for PoolAccount {
    /// A pool record as it is allocated: every field zero or empty.
    fn default() -> (pool: PoolAccount)
        ensures
            pool@ == (PoolState {
                creator: pool.creator,
                pool_id: 0,
                currency: CurrencyType::SOL,
                contribution_amount: 0,
                total_members: 0,
                member_count: 0,
                members: Seq::empty(),
                payout_order: Seq::empty(),
                current_cycle: 0,
                total_cycles: 0,
                cycle_period: CyclePeriod::Monthly,
                last_contribution_time: 0,
                active: false,
                bump: 0,
            }),
            forall|i: int| 0 <= i < 32 ==> pool.creator.bytes[i] == 0u8,
    {
        PoolAccount {
            creator: Identity::default(),
            pool_id: 0,
            currency: CurrencyType::SOL,
            contribution_amount: 0,
            total_members: 0,
            member_count: 0,
            members: Vec::new(),
            payout_order: Vec::new(),
            current_cycle: 0,
            total_cycles: 0,
            cycle_period: CyclePeriod::Monthly,
            last_contribution_time: 0,
            active: false,
            bump: 0,
        }
    }
}

impl Default for MemberAccount {
    /// A member record as it is allocated: every field zero or empty.
    fn default() -> (member: MemberAccount)
        ensures
            member@ == (MemberState {
                wallet: member.wallet,
                pool: member.pool,
                has_collected: false,
                contributions_made: 0,
                payout_position: 0,
                questionnaire_answers: Seq::empty(),
                bump: 0,
            }),
            forall|i: int| 0 <= i < 32 ==> member.wallet.bytes[i] == 0u8 && member.pool.bytes[i] == 0u8,
    {
        let member = MemberAccount {
            wallet: Identity::default(),
            pool: Identity::default(),
            has_collected: false,
            contributions_made: 0,
            payout_position: 0,
            questionnaire_answers: Vec::new(),
            bump: 0,
        };
        assert(texts(member.questionnaire_answers@) =~= Seq::empty());
        member
    }
}

impl Default for VaultAccount {
    /// A vault record as it is allocated: every field zero.
    fn default() -> (vault: VaultAccount)
        ensures
            vault.amount == 0,
            vault.bump == 0,
            forall|i: int| 0 <= i < 32 ==> vault.pool.bytes[i] == 0u8,
    {
        VaultAccount { pool: Identity::default(), amount: 0, bump: 0 }
    }
}

} // verus!
