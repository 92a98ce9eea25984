//! The catalog of operations: for every command its name, how it reaches the
//! contract, its argument slots in order, whether it takes a payment, and
//! what comes back.
//!
//! The catalog is closed: a command is a variant of [`Command`], and a name
//! that no variant has is unknown.

use crate::error::InteractError;
use vstd::prelude::*;

verus! {

/// The operations of the contract that this client knows, one variant for each.
#[derive(Clone, Copy, Debug, PartialEq, Eq, Structural)]
pub enum Command {
    /// `deploy`. Creates the contract.
    Deploy,
    /// `lockTokens`. Locks the paid tokens, optionally for another destination.
    LockTokens,
    /// `unlockTokens`. Unlocks the paid locked tokens.
    UnlockTokens,
    /// `extendLockPeriod`. Extends the lock period of the paid tokens for a user.
    ExtendLockPeriod,
    /// `issueLockedToken`. Issues the locked token: display name, ticker, number of decimals.
    IssueLockedToken,
    /// `getLockedTokenId`. Reads the identifier of the locked token.
    GetLockedTokenId,
    /// `getBaseAssetTokenId`. Reads the identifier of the base asset token.
    GetBaseAssetTokenId,
    /// `getLegacyLockedTokenId`. Reads the identifier of the legacy locked token.
    GetLegacyLockedTokenId,
    /// `getEnergyEntryForUser`. Reads the energy entry of a user.
    GetEnergyEntryForUser,
    /// `getEnergyAmountForUser`. Reads the energy amount of a user.
    GetEnergyAmountForUser,
    /// `addLockOptions`. Adds lock options.
    AddLockOptions,
    /// `getLockOptions`. Reads the lock options.
    GetLockOptions,
    /// `unlockEarly`. Unlocks the paid tokens before their time.
    UnlockEarly,
    /// `reduceLockPeriod`. Reduces the lock period of the paid tokens.
    ReduceLockPeriod,
    /// `getPenaltyAmount`. Reads the penalty for an amount between two lock periods.
    GetPenaltyAmount,
    /// `setTokenUnstakeAddress`. Sets the address of the token unstake contract.
    SetTokenUnstakeAddress,
    /// `revertUnstake`. Reverts an unstake for a user with a new energy entry.
    RevertUnstake,
    /// `getTokenUnstakeScAddress`. Reads the address of the token unstake contract.
    GetTokenUnstakeScAddress,
    /// `setEnergyForOldTokens`. Sets the energy of users for old tokens.
    SetEnergyForOldTokens,
    /// `updateEnergyAfterOldTokenUnlock`. Updates the energy of a caller after an old token unlock.
    UpdateEnergyAfterOldTokenUnlock,
    /// `migrateOldTokens`. Migrates the paid old tokens.
    MigrateOldTokens,
    /// `pause`. Pauses the contract.
    Pause,
    /// `unpause`. Resumes the contract.
    Unpause,
    /// `isPaused`. Reads whether the contract is paused.
    IsPaused,
    /// `setTransferRoleLockedToken`.
    /// Gives the transfer role of the locked token, optionally to an address.
    SetTransferRoleLockedToken,
    /// `setBurnRoleLockedToken`. Gives the burn role of the locked token to an address.
    SetBurnRoleLockedToken,
    /// `mergeTokens`. Merges the paid tokens, optionally on behalf of another caller.
    MergeTokens,
    /// `lockVirtual`. Locks tokens without a payment.
    LockVirtual,
    /// `addSCAddressToWhitelist`. Adds a contract address to the whitelist.
    AddSCAddressToWhitelist,
    /// `removeSCAddressFromWhitelist`. Removes a contract address from the whitelist.
    RemoveSCAddressFromWhitelist,
    /// `isSCAddressWhitelisted`. Reads whether a contract address is whitelisted.
    IsSCAddressWhitelisted,
    /// `addToTokenTransferWhitelist`. Adds addresses to the token transfer whitelist.
    AddToTokenTransferWhitelist,
    /// `removeFromTokenTransferWhitelist`. Removes addresses from the token transfer whitelist.
    RemoveFromTokenTransferWhitelist,
    /// `setUserEnergyAfterLockedTokenTransfer`.
    /// Sets the energy of a user after a locked token transfer.
    SetUserEnergyAfterLockedTokenTransfer,
}

/// How an operation reaches the contract.
#[derive(Clone, Copy, Debug, PartialEq, Eq, Structural)]
pub enum CallKind {
    /// Creates a new contract account.
    Create,
    /// Changes state on chain: signed, broadcast and confirmed.
    Mutating,
    /// Reads state on chain: neither signed nor broadcast.
    ReadOnly,
}

/// The type of one argument slot of an operation.
#[derive(Clone, Copy, Debug, PartialEq, Eq, Structural)]
pub enum ArgKind {
    /// An unsigned 64-bit number.
    U64,
    /// An unsigned 32-bit number.
    U32,
    /// An unsigned number of any size.
    BigUint,
    /// An account address.
    Address,
    /// A token identifier.
    TokenIdentifier,
    /// A byte string.
    Bytes,
    /// An address that may be left out.
    OptionalAddress,
    /// Any number of addresses.
    AddressList,
    /// Any number of lock options, each a pair of numbers.
    LockOptionList,
    /// A value whose layout only the contract describes.
    Structured,
}

/// Whether an operation takes a payment, and of which kind.
#[derive(Clone, Copy, Debug, PartialEq, Eq, Structural)]
pub enum PaymentRule {
    /// The operation takes no payment.
    NotPayable,
    /// The operation takes the native currency.
    Egld,
    /// The operation takes a transfer of one token.
    SingleToken,
}

/// What comes back from an operation.
#[derive(Clone, Copy, Debug, PartialEq, Eq, Structural)]
pub enum ResultShape {
    /// The address of the account that was created.
    NewAddress,
    /// The values that the contract returned, to be decoded by their types.
    Decoded,
}

/// Number of operations in the catalog.
pub const COMMAND_COUNT: usize = 34;

/// One entry of the catalog: everything that is fixed about an operation.
#[derive(Debug, PartialEq, Eq)]
pub struct Descriptor {
    pub command: Command,
    pub call_kind: CallKind,
    pub arguments: Vec<ArgKind>,
    pub payment: PaymentRule,
    pub result: ResultShape,
}

impl Command {
    /// The name by which the command is asked for.
    pub open spec fn name_of(self) -> Seq<char> {
        match self {
            Command::Deploy => "deploy"@,
            Command::LockTokens => "lockTokens"@,
            Command::UnlockTokens => "unlockTokens"@,
            Command::ExtendLockPeriod => "extendLockPeriod"@,
            Command::IssueLockedToken => "issueLockedToken"@,
            Command::GetLockedTokenId => "getLockedTokenId"@,
            Command::GetBaseAssetTokenId => "getBaseAssetTokenId"@,
            Command::GetLegacyLockedTokenId => "getLegacyLockedTokenId"@,
            Command::GetEnergyEntryForUser => "getEnergyEntryForUser"@,
            Command::GetEnergyAmountForUser => "getEnergyAmountForUser"@,
            Command::AddLockOptions => "addLockOptions"@,
            Command::GetLockOptions => "getLockOptions"@,
            Command::UnlockEarly => "unlockEarly"@,
            Command::ReduceLockPeriod => "reduceLockPeriod"@,
            Command::GetPenaltyAmount => "getPenaltyAmount"@,
            Command::SetTokenUnstakeAddress => "setTokenUnstakeAddress"@,
            Command::RevertUnstake => "revertUnstake"@,
            Command::GetTokenUnstakeScAddress => "getTokenUnstakeScAddress"@,
            Command::SetEnergyForOldTokens => "setEnergyForOldTokens"@,
            Command::UpdateEnergyAfterOldTokenUnlock => "updateEnergyAfterOldTokenUnlock"@,
            Command::MigrateOldTokens => "migrateOldTokens"@,
            Command::Pause => "pause"@,
            Command::Unpause => "unpause"@,
            Command::IsPaused => "isPaused"@,
            Command::SetTransferRoleLockedToken => "setTransferRoleLockedToken"@,
            Command::SetBurnRoleLockedToken => "setBurnRoleLockedToken"@,
            Command::MergeTokens => "mergeTokens"@,
            Command::LockVirtual => "lockVirtual"@,
            Command::AddSCAddressToWhitelist => "addSCAddressToWhitelist"@,
            Command::RemoveSCAddressFromWhitelist => "removeSCAddressFromWhitelist"@,
            Command::IsSCAddressWhitelisted => "isSCAddressWhitelisted"@,
            Command::AddToTokenTransferWhitelist => "addToTokenTransferWhitelist"@,
            Command::RemoveFromTokenTransferWhitelist => "removeFromTokenTransferWhitelist"@,
            Command::SetUserEnergyAfterLockedTokenTransfer =>
                "setUserEnergyAfterLockedTokenTransfer"@,
        }
    }

    /// The name by which the command is asked for.
    pub fn name(&self) -> (name: &'static str)
        ensures
            name@ == self.name_of(),
    {
        match self {
            Command::Deploy => "deploy",
            Command::LockTokens => "lockTokens",
            Command::UnlockTokens => "unlockTokens",
            Command::ExtendLockPeriod => "extendLockPeriod",
            Command::IssueLockedToken => "issueLockedToken",
            Command::GetLockedTokenId => "getLockedTokenId",
            Command::GetBaseAssetTokenId => "getBaseAssetTokenId",
            Command::GetLegacyLockedTokenId => "getLegacyLockedTokenId",
            Command::GetEnergyEntryForUser => "getEnergyEntryForUser",
            Command::GetEnergyAmountForUser => "getEnergyAmountForUser",
            Command::AddLockOptions => "addLockOptions",
            Command::GetLockOptions => "getLockOptions",
            Command::UnlockEarly => "unlockEarly",
            Command::ReduceLockPeriod => "reduceLockPeriod",
            Command::GetPenaltyAmount => "getPenaltyAmount",
            Command::SetTokenUnstakeAddress => "setTokenUnstakeAddress",
            Command::RevertUnstake => "revertUnstake",
            Command::GetTokenUnstakeScAddress => "getTokenUnstakeScAddress",
            Command::SetEnergyForOldTokens => "setEnergyForOldTokens",
            Command::UpdateEnergyAfterOldTokenUnlock => "updateEnergyAfterOldTokenUnlock",
            Command::MigrateOldTokens => "migrateOldTokens",
            Command::Pause => "pause",
            Command::Unpause => "unpause",
            Command::IsPaused => "isPaused",
            Command::SetTransferRoleLockedToken => "setTransferRoleLockedToken",
            Command::SetBurnRoleLockedToken => "setBurnRoleLockedToken",
            Command::MergeTokens => "mergeTokens",
            Command::LockVirtual => "lockVirtual",
            Command::AddSCAddressToWhitelist => "addSCAddressToWhitelist",
            Command::RemoveSCAddressFromWhitelist => "removeSCAddressFromWhitelist",
            Command::IsSCAddressWhitelisted => "isSCAddressWhitelisted",
            Command::AddToTokenTransferWhitelist => "addToTokenTransferWhitelist",
            Command::RemoveFromTokenTransferWhitelist => "removeFromTokenTransferWhitelist",
            Command::SetUserEnergyAfterLockedTokenTransfer =>
                "setUserEnergyAfterLockedTokenTransfer",
        }
    }

    /// The name of the function that the contract runs: the constructor for
    /// `deploy`, else the command's own name.
    pub open spec fn endpoint_of(self) -> Seq<char> {
        match self {
            Command::Deploy => "init"@,
            _ => self.name_of(),
        }
    }

    /// The name of the function that the contract runs.
    pub fn endpoint(&self) -> (name: &'static str)
        ensures
            name@ == self.endpoint_of(),
    {
        match self {
            Command::Deploy => "init",
            _ => self.name(),
        }
    }

    /// How the command reaches the contract.
    pub open spec fn call_kind_of(self) -> CallKind {
        match self {
            Command::Deploy => CallKind::Create,
            Command::GetLockedTokenId
            | Command::GetBaseAssetTokenId
            | Command::GetLegacyLockedTokenId
            | Command::GetEnergyEntryForUser
            | Command::GetEnergyAmountForUser
            | Command::GetLockOptions
            | Command::GetPenaltyAmount
            | Command::GetTokenUnstakeScAddress
            | Command::IsPaused
            | Command::IsSCAddressWhitelisted => CallKind::ReadOnly,
            _ => CallKind::Mutating,
        }
    }

    /// How the command reaches the contract.
    pub fn call_kind(&self) -> (kind: CallKind)
        ensures
            kind == self.call_kind_of(),
    {
        match self {
            Command::Deploy => CallKind::Create,
            Command::GetLockedTokenId
            | Command::GetBaseAssetTokenId
            | Command::GetLegacyLockedTokenId
            | Command::GetEnergyEntryForUser
            | Command::GetEnergyAmountForUser
            | Command::GetLockOptions
            | Command::GetPenaltyAmount
            | Command::GetTokenUnstakeScAddress
            | Command::IsPaused
            | Command::IsSCAddressWhitelisted => CallKind::ReadOnly,
            _ => CallKind::Mutating,
        }
    }

    /// The argument slots of the command, in the order in which the contract takes them.
    pub open spec fn argument_kinds_of(self) -> Seq<ArgKind> {
        match self {
            Command::Deploy => seq![
                ArgKind::TokenIdentifier,
                ArgKind::TokenIdentifier,
                ArgKind::Address,
                ArgKind::U64,
                ArgKind::LockOptionList,
            ],
            Command::LockTokens => seq![ArgKind::U64, ArgKind::OptionalAddress],
            Command::UnlockTokens => Seq::empty(),
            Command::ExtendLockPeriod => seq![ArgKind::U64, ArgKind::Address],
            Command::IssueLockedToken => seq![ArgKind::Bytes, ArgKind::Bytes, ArgKind::U32],
            Command::GetLockedTokenId => Seq::empty(),
            Command::GetBaseAssetTokenId => Seq::empty(),
            Command::GetLegacyLockedTokenId => Seq::empty(),
            Command::GetEnergyEntryForUser => seq![ArgKind::Address],
            Command::GetEnergyAmountForUser => seq![ArgKind::Address],
            Command::AddLockOptions => seq![ArgKind::LockOptionList],
            Command::GetLockOptions => Seq::empty(),
            Command::UnlockEarly => Seq::empty(),
            Command::ReduceLockPeriod => seq![ArgKind::U64],
            Command::GetPenaltyAmount => seq![ArgKind::BigUint, ArgKind::U64, ArgKind::U64],
            Command::SetTokenUnstakeAddress => seq![ArgKind::Address],
            Command::RevertUnstake => seq![ArgKind::Address, ArgKind::Structured],
            Command::GetTokenUnstakeScAddress => Seq::empty(),
            Command::SetEnergyForOldTokens => seq![ArgKind::Structured],
            Command::UpdateEnergyAfterOldTokenUnlock => seq![
                ArgKind::Address,
                ArgKind::Structured,
                ArgKind::Structured,
            ],
            Command::MigrateOldTokens => Seq::empty(),
            Command::Pause => Seq::empty(),
            Command::Unpause => Seq::empty(),
            Command::IsPaused => Seq::empty(),
            Command::SetTransferRoleLockedToken => seq![ArgKind::OptionalAddress],
            Command::SetBurnRoleLockedToken => seq![ArgKind::Address],
            Command::MergeTokens => seq![ArgKind::OptionalAddress],
            Command::LockVirtual => seq![
                ArgKind::TokenIdentifier,
                ArgKind::BigUint,
                ArgKind::U64,
                ArgKind::Address,
                ArgKind::Address,
            ],
            Command::AddSCAddressToWhitelist => seq![ArgKind::Address],
            Command::RemoveSCAddressFromWhitelist => seq![ArgKind::Address],
            Command::IsSCAddressWhitelisted => seq![ArgKind::Address],
            Command::AddToTokenTransferWhitelist => seq![ArgKind::AddressList],
            Command::RemoveFromTokenTransferWhitelist => seq![ArgKind::AddressList],
            Command::SetUserEnergyAfterLockedTokenTransfer => seq![
                ArgKind::Address,
                ArgKind::Structured,
            ],
        }
    }

    /// The argument slots of the command, in the order in which the contract takes them.
    pub fn argument_kinds(&self) -> (kinds: Vec<ArgKind>)
        ensures
            kinds@ == self.argument_kinds_of(),
    {
        match self {
            Command::Deploy => vec![
                ArgKind::TokenIdentifier,
                ArgKind::TokenIdentifier,
                ArgKind::Address,
                ArgKind::U64,
                ArgKind::LockOptionList,
            ],
            Command::LockTokens => vec![ArgKind::U64, ArgKind::OptionalAddress],
            Command::UnlockTokens => Vec::new(),
            Command::ExtendLockPeriod => vec![ArgKind::U64, ArgKind::Address],
            Command::IssueLockedToken => vec![ArgKind::Bytes, ArgKind::Bytes, ArgKind::U32],
            Command::GetLockedTokenId => Vec::new(),
            Command::GetBaseAssetTokenId => Vec::new(),
            Command::GetLegacyLockedTokenId => Vec::new(),
            Command::GetEnergyEntryForUser => vec![ArgKind::Address],
            Command::GetEnergyAmountForUser => vec![ArgKind::Address],
            Command::AddLockOptions => vec![ArgKind::LockOptionList],
            Command::GetLockOptions => Vec::new(),
            Command::UnlockEarly => Vec::new(),
            Command::ReduceLockPeriod => vec![ArgKind::U64],
            Command::GetPenaltyAmount => vec![ArgKind::BigUint, ArgKind::U64, ArgKind::U64],
            Command::SetTokenUnstakeAddress => vec![ArgKind::Address],
            Command::RevertUnstake => vec![ArgKind::Address, ArgKind::Structured],
            Command::GetTokenUnstakeScAddress => Vec::new(),
            Command::SetEnergyForOldTokens => vec![ArgKind::Structured],
            Command::UpdateEnergyAfterOldTokenUnlock => vec![
                ArgKind::Address,
                ArgKind::Structured,
                ArgKind::Structured,
            ],
            Command::MigrateOldTokens => Vec::new(),
            Command::Pause => Vec::new(),
            Command::Unpause => Vec::new(),
            Command::IsPaused => Vec::new(),
            Command::SetTransferRoleLockedToken => vec![ArgKind::OptionalAddress],
            Command::SetBurnRoleLockedToken => vec![ArgKind::Address],
            Command::MergeTokens => vec![ArgKind::OptionalAddress],
            Command::LockVirtual => vec![
                ArgKind::TokenIdentifier,
                ArgKind::BigUint,
                ArgKind::U64,
                ArgKind::Address,
                ArgKind::Address,
            ],
            Command::AddSCAddressToWhitelist => vec![ArgKind::Address],
            Command::RemoveSCAddressFromWhitelist => vec![ArgKind::Address],
            Command::IsSCAddressWhitelisted => vec![ArgKind::Address],
            Command::AddToTokenTransferWhitelist => vec![ArgKind::AddressList],
            Command::RemoveFromTokenTransferWhitelist => vec![ArgKind::AddressList],
            Command::SetUserEnergyAfterLockedTokenTransfer => vec![
                ArgKind::Address,
                ArgKind::Structured,
            ],
        }
    }

    /// Whether the command takes a payment, and of which kind.
    pub open spec fn payment_rule_of(self) -> PaymentRule {
        match self {
            Command::IssueLockedToken => PaymentRule::Egld,
            Command::LockTokens
            | Command::UnlockTokens
            | Command::ExtendLockPeriod
            | Command::UnlockEarly
            | Command::ReduceLockPeriod
            | Command::RevertUnstake
            | Command::MigrateOldTokens
            | Command::MergeTokens => PaymentRule::SingleToken,
            _ => PaymentRule::NotPayable,
        }
    }

    /// Whether the command takes a payment, and of which kind.
    pub fn payment_rule(&self) -> (rule: PaymentRule)
        ensures
            rule == self.payment_rule_of(),
    {
        match self {
            Command::IssueLockedToken => PaymentRule::Egld,
            Command::LockTokens
            | Command::UnlockTokens
            | Command::ExtendLockPeriod
            | Command::UnlockEarly
            | Command::ReduceLockPeriod
            | Command::RevertUnstake
            | Command::MigrateOldTokens
            | Command::MergeTokens => PaymentRule::SingleToken,
            _ => PaymentRule::NotPayable,
        }
    }

    /// What comes back from the command.
    pub open spec fn result_shape_of(self) -> ResultShape {
        match self {
            Command::Deploy => ResultShape::NewAddress,
            _ => ResultShape::Decoded,
        }
    }

    /// What comes back from the command.
    pub fn result_shape(&self) -> (shape: ResultShape)
        ensures
            shape == self.result_shape_of(),
    {
        match self {
            Command::Deploy => ResultShape::NewAddress,
            _ => ResultShape::Decoded,
        }
    }

    /// The catalog entry of the command.
    pub fn descriptor(&self) -> (descriptor: Descriptor)
        ensures
            descriptor.describes(*self),
    {
        Descriptor {
            command: *self,
            call_kind: self.call_kind(),
            arguments: self.argument_kinds(),
            payment: self.payment_rule(),
            result: self.result_shape(),
        }
    }

    /// The command that a name asks for, if it asks for one: the command
    /// that has this name.
    pub open spec fn parsed(name: Seq<char>) -> Option<Command> {
        if exists|c: Command| c.name_of() == name {
            Some(choose|c: Command| c.name_of() == name)
        } else {
            None
        }
    }

    /// The command that a name asks for, if it asks for one.
    pub fn parse(name: &str) -> (command: Option<Command>)
        ensures
            command == Self::parsed(name@),
    {
        let all = Self::all();
        let mut i: usize = 0;
        while i < all.len()
            invariant
                i <= all.len(),
                all@ == Self::all_of(),
                forall|j: int| 0 <= j < i ==> (#[trigger] all[j]).name_of() != name@,
            decreases all.len() - i,
        {
            let candidate: Command = all[i];
            if same_text(name, candidate.name()) {
                proof {
                    candidate.lemma_parse_finds(name@);
                }
                return Some(candidate);
            }
            i += 1;
        }
        proof {
            assert forall|c: Command| c.name_of() != name@ by {
                c.lemma_all_complete();
                assert(all[c.position()] == c);
            }
        }
        None
    }

    /// All commands of the catalog, each once.
    pub open spec fn all_of() -> Seq<Command> {
        seq![
            Command::Deploy,
            Command::LockTokens,
            Command::UnlockTokens,
            Command::ExtendLockPeriod,
            Command::IssueLockedToken,
            Command::GetLockedTokenId,
            Command::GetBaseAssetTokenId,
            Command::GetLegacyLockedTokenId,
            Command::GetEnergyEntryForUser,
            Command::GetEnergyAmountForUser,
            Command::AddLockOptions,
            Command::GetLockOptions,
            Command::UnlockEarly,
            Command::ReduceLockPeriod,
            Command::GetPenaltyAmount,
            Command::SetTokenUnstakeAddress,
            Command::RevertUnstake,
            Command::GetTokenUnstakeScAddress,
            Command::SetEnergyForOldTokens,
            Command::UpdateEnergyAfterOldTokenUnlock,
            Command::MigrateOldTokens,
            Command::Pause,
            Command::Unpause,
            Command::IsPaused,
            Command::SetTransferRoleLockedToken,
            Command::SetBurnRoleLockedToken,
            Command::MergeTokens,
            Command::LockVirtual,
            Command::AddSCAddressToWhitelist,
            Command::RemoveSCAddressFromWhitelist,
            Command::IsSCAddressWhitelisted,
            Command::AddToTokenTransferWhitelist,
            Command::RemoveFromTokenTransferWhitelist,
            Command::SetUserEnergyAfterLockedTokenTransfer,
        ]
    }

    /// All commands of the catalog, each once.
    pub fn all() -> (commands: Vec<Command>)
        ensures
            commands@ == Self::all_of(),
    {
        vec![
            Command::Deploy,
            Command::LockTokens,
            Command::UnlockTokens,
            Command::ExtendLockPeriod,
            Command::IssueLockedToken,
            Command::GetLockedTokenId,
            Command::GetBaseAssetTokenId,
            Command::GetLegacyLockedTokenId,
            Command::GetEnergyEntryForUser,
            Command::GetEnergyAmountForUser,
            Command::AddLockOptions,
            Command::GetLockOptions,
            Command::UnlockEarly,
            Command::ReduceLockPeriod,
            Command::GetPenaltyAmount,
            Command::SetTokenUnstakeAddress,
            Command::RevertUnstake,
            Command::GetTokenUnstakeScAddress,
            Command::SetEnergyForOldTokens,
            Command::UpdateEnergyAfterOldTokenUnlock,
            Command::MigrateOldTokens,
            Command::Pause,
            Command::Unpause,
            Command::IsPaused,
            Command::SetTransferRoleLockedToken,
            Command::SetBurnRoleLockedToken,
            Command::MergeTokens,
            Command::LockVirtual,
            Command::AddSCAddressToWhitelist,
            Command::RemoveSCAddressFromWhitelist,
            Command::IsSCAddressWhitelisted,
            Command::AddToTokenTransferWhitelist,
            Command::RemoveFromTokenTransferWhitelist,
            Command::SetUserEnergyAfterLockedTokenTransfer,
        ]
    }

    /// The length of the name, its first character and its fourth: enough to
    /// tell any two names of the catalog apart.
    pub open spec fn name_mark(name: Seq<char>) -> (nat, char, char) {
        (name.len(), name[0], name[3])
    }

    /// The mark of the command's name.
    pub open spec fn mark_of(self) -> (nat, char, char) {
        match self {
            Command::Deploy => (6, 'd', 'l'),
            Command::LockTokens => (10, 'l', 'k'),
            Command::UnlockTokens => (12, 'u', 'o'),
            Command::ExtendLockPeriod => (16, 'e', 'e'),
            Command::IssueLockedToken => (16, 'i', 'u'),
            Command::GetLockedTokenId => (16, 'g', 'L'),
            Command::GetBaseAssetTokenId => (19, 'g', 'B'),
            Command::GetLegacyLockedTokenId => (22, 'g', 'L'),
            Command::GetEnergyEntryForUser => (21, 'g', 'E'),
            Command::GetEnergyAmountForUser => (22, 'g', 'E'),
            Command::AddLockOptions => (14, 'a', 'L'),
            Command::GetLockOptions => (14, 'g', 'L'),
            Command::UnlockEarly => (11, 'u', 'o'),
            Command::ReduceLockPeriod => (16, 'r', 'u'),
            Command::GetPenaltyAmount => (16, 'g', 'P'),
            Command::SetTokenUnstakeAddress => (22, 's', 'T'),
            Command::RevertUnstake => (13, 'r', 'e'),
            Command::GetTokenUnstakeScAddress => (24, 'g', 'T'),
            Command::SetEnergyForOldTokens => (21, 's', 'E'),
            Command::UpdateEnergyAfterOldTokenUnlock => (31, 'u', 'a'),
            Command::MigrateOldTokens => (16, 'm', 'r'),
            Command::Pause => (5, 'p', 's'),
            Command::Unpause => (7, 'u', 'a'),
            Command::IsPaused => (8, 'i', 'a'),
            Command::SetTransferRoleLockedToken => (26, 's', 'T'),
            Command::SetBurnRoleLockedToken => (22, 's', 'B'),
            Command::MergeTokens => (11, 'm', 'g'),
            Command::LockVirtual => (11, 'l', 'k'),
            Command::AddSCAddressToWhitelist => (23, 'a', 'S'),
            Command::RemoveSCAddressFromWhitelist => (28, 'r', 'o'),
            Command::IsSCAddressWhitelisted => (22, 'i', 'C'),
            Command::AddToTokenTransferWhitelist => (27, 'a', 'T'),
            Command::RemoveFromTokenTransferWhitelist => (32, 'r', 'o'),
            Command::SetUserEnergyAfterLockedTokenTransfer => (37, 's', 'U'),
        }
    }

    /// The name of each command has the mark that `mark_of` lists for it.
    pub proof fn lemma_name_mark(self)
        ensures
            Self::name_mark(self.name_of()) == self.mark_of(),
    {
        reveal_strlit("deploy");
        reveal_strlit("lockTokens");
        reveal_strlit("unlockTokens");
        reveal_strlit("extendLockPeriod");
        reveal_strlit("issueLockedToken");
        reveal_strlit("getLockedTokenId");
        reveal_strlit("getBaseAssetTokenId");
        reveal_strlit("getLegacyLockedTokenId");
        reveal_strlit("getEnergyEntryForUser");
        reveal_strlit("getEnergyAmountForUser");
        reveal_strlit("addLockOptions");
        reveal_strlit("getLockOptions");
        reveal_strlit("unlockEarly");
        reveal_strlit("reduceLockPeriod");
        reveal_strlit("getPenaltyAmount");
        reveal_strlit("setTokenUnstakeAddress");
        reveal_strlit("revertUnstake");
        reveal_strlit("getTokenUnstakeScAddress");
        reveal_strlit("setEnergyForOldTokens");
        reveal_strlit("updateEnergyAfterOldTokenUnlock");
        reveal_strlit("migrateOldTokens");
        reveal_strlit("pause");
        reveal_strlit("unpause");
        reveal_strlit("isPaused");
        reveal_strlit("setTransferRoleLockedToken");
        reveal_strlit("setBurnRoleLockedToken");
        reveal_strlit("mergeTokens");
        reveal_strlit("lockVirtual");
        reveal_strlit("addSCAddressToWhitelist");
        reveal_strlit("removeSCAddressFromWhitelist");
        reveal_strlit("isSCAddressWhitelisted");
        reveal_strlit("addToTokenTransferWhitelist");
        reveal_strlit("removeFromTokenTransferWhitelist");
        reveal_strlit("setUserEnergyAfterLockedTokenTransfer");
    }

    /// No two commands share a name.
    pub proof fn lemma_names_distinct(self, other: Command)
        requires
            self != other,
        ensures
            self.name_of() != other.name_of(),
    {
        self.lemma_name_mark();
        other.lemma_name_mark();
    }

    /// Every command is found by its own name, and by no other text: a name is
    /// in the catalog exactly once.
    pub proof fn lemma_parse_finds(self, name: Seq<char>)
        ensures
            Self::parsed(name) == Some(self) <==> name == self.name_of(),
    {
        if name == self.name_of() {
            let found = choose|c: Command| c.name_of() == name;
            if found != self {
                found.lemma_names_distinct(self);
            }
        }
    }

    /// A text that no command has for its name asks for nothing.
    pub proof fn lemma_parse_rejects(name: Seq<char>)
        ensures
            Self::parsed(name) is None <==> forall|c: Command| #[trigger] c.name_of() != name,
    {
    }

    /// The listing holds every command, and none twice.
    pub proof fn lemma_all_complete(self)
        ensures
            Self::all_of().len() == COMMAND_COUNT,
            0 <= self.position() < COMMAND_COUNT,
            Self::all_of()[self.position()] == self,
            Self::all_of().contains(self),
            Self::all_of().no_duplicates(),
    {
        let all = Self::all_of();
        let at = self.position();
        assert(all[at] == self);
        assert forall|i: int, j: int|
            0 <= i < all.len() && 0 <= j < all.len() && i != j implies all[i]
            != all[j] by {
            assert(all[i].position() == i);
            assert(all[j].position() == j);
        }
    }

    /// Where the command stands in the listing.
    pub open spec fn position(self) -> int {
        match self {
            Command::Deploy => 0,
            Command::LockTokens => 1,
            Command::UnlockTokens => 2,
            Command::ExtendLockPeriod => 3,
            Command::IssueLockedToken => 4,
            Command::GetLockedTokenId => 5,
            Command::GetBaseAssetTokenId => 6,
            Command::GetLegacyLockedTokenId => 7,
            Command::GetEnergyEntryForUser => 8,
            Command::GetEnergyAmountForUser => 9,
            Command::AddLockOptions => 10,
            Command::GetLockOptions => 11,
            Command::UnlockEarly => 12,
            Command::ReduceLockPeriod => 13,
            Command::GetPenaltyAmount => 14,
            Command::SetTokenUnstakeAddress => 15,
            Command::RevertUnstake => 16,
            Command::GetTokenUnstakeScAddress => 17,
            Command::SetEnergyForOldTokens => 18,
            Command::UpdateEnergyAfterOldTokenUnlock => 19,
            Command::MigrateOldTokens => 20,
            Command::Pause => 21,
            Command::Unpause => 22,
            Command::IsPaused => 23,
            Command::SetTransferRoleLockedToken => 24,
            Command::SetBurnRoleLockedToken => 25,
            Command::MergeTokens => 26,
            Command::LockVirtual => 27,
            Command::AddSCAddressToWhitelist => 28,
            Command::RemoveSCAddressFromWhitelist => 29,
            Command::IsSCAddressWhitelisted => 30,
            Command::AddToTokenTransferWhitelist => 31,
            Command::RemoveFromTokenTransferWhitelist => 32,
            Command::SetUserEnergyAfterLockedTokenTransfer => 33,
        }
    }
}

impl Descriptor {
    /// The descriptor is the catalog entry of the command.
    pub open spec fn describes(self, command: Command) -> bool {
        &&& self.command == command
        &&& self.call_kind == command.call_kind_of()
        &&& self.arguments@ == command.argument_kinds_of()
        &&& self.payment == command.payment_rule_of()
        &&& self.result == command.result_shape_of()
    }
}

/// Whether two texts hold the same characters.
pub fn same_text(a: &str, b: &str) -> (same: bool)
    ensures
        same == (a@ == b@),
{
    a.to_owned() == b.to_owned()
}

/// Finds the catalog entry for a command name.
///
/// Fails with `UnknownCommand` exactly where the name is not one of the catalog.
pub fn lookup(command_name: &str) -> (found: Result<Descriptor, InteractError>)
    ensures
        match found {
            Ok(descriptor) => Command::parsed(command_name@) == Some(descriptor.command)
                && descriptor.describes(descriptor.command),
            Err(error) => error == InteractError::UnknownCommand && Command::parsed(command_name@)
                is None,
        },
{
    match Command::parse(command_name) {
        Some(command) => Ok(command.descriptor()),
        None => Err(InteractError::UnknownCommand),
    }
}

} // verus!
