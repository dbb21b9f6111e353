//! Choice of what a run does, from the operator's options, and the pauses
//! each mining mode takes between its steps.

use vstd::prelude::*;

verus! {

/// Which options the operator gave.
#[derive(Debug, Clone, Copy, PartialEq, Eq, Structural)]
pub struct ModeFlags {
    pub generate_wallets: Option<usize>,
    pub donate_all: bool,
    pub api_url: bool,
    pub wallets_file: bool,
    pub payment_key: bool,
    pub mnemonic: bool,
    pub ephemeral_key: bool,
    pub challenge: bool,
}

/// What a run does.
#[derive(Debug, Clone, Copy, PartialEq, Eq, Structural)]
pub enum Mode {
    /// Append this many generated entries to the roster file.
    GenerateWallets(usize),
    /// Set up a donation for every roster entry.
    DonateAll,
    /// Show the active challenge and stop.
    InfoOnly,
    /// Mine with a pool of roster identities.
    WalletPool,
    /// Mine with one persistent key.
    PersistentKey,
    /// Mine with identities derived in sequence from a seed.
    Mnemonic,
    /// Mine with a fresh identity each cycle.
    Ephemeral,
    /// Nothing to mine with.
    Idle,
}

/// Why the options do not make a run.
#[derive(Debug, Clone, Copy, PartialEq, Eq, Structural)]
pub enum ModeError {
    /// Setting up donations needs the coordinator's URL.
    MissingApiUrl,
}

/// The run that the options ask for, in order of precedence.
pub open spec fn mode_of(f: ModeFlags) -> Result<Mode, ModeError> {
    if f.generate_wallets is Some {
        Ok(Mode::GenerateWallets(f.generate_wallets->Some_0))
    } else if f.donate_all {
        if f.api_url { Ok(Mode::DonateAll) } else { Err(ModeError::MissingApiUrl) }
    } else if !f.payment_key && !f.ephemeral_key && !f.mnemonic && !f.challenge && !f.wallets_file {
        Ok(Mode::InfoOnly)
    } else if f.wallets_file {
        Ok(Mode::WalletPool)
    } else if f.payment_key {
        Ok(Mode::PersistentKey)
    } else if f.mnemonic {
        Ok(Mode::Mnemonic)
    } else if f.ephemeral_key {
        Ok(Mode::Ephemeral)
    } else {
        Ok(Mode::Idle)
    }
}

/// The run that the options ask for.
pub fn select_mode(f: &ModeFlags) -> (r: Result<Mode, ModeError>)
    ensures
        r == mode_of(*f),
{
    if let Some(n) = f.generate_wallets {
        return Ok(Mode::GenerateWallets(n));
    }
    if f.donate_all {
        return if f.api_url { Ok(Mode::DonateAll) } else { Err(ModeError::MissingApiUrl) };
    }
    if !f.payment_key && !f.ephemeral_key && !f.mnemonic && !f.challenge && !f.wallets_file {
        return Ok(Mode::InfoOnly);
    }
    if f.wallets_file {
        Ok(Mode::WalletPool)
    } else if f.payment_key {
        Ok(Mode::PersistentKey)
    } else if f.mnemonic {
        Ok(Mode::Mnemonic)
    } else if f.ephemeral_key {
        Ok(Mode::Ephemeral)
    } else {
        Ok(Mode::Idle)
    }
}

/// A moment at which a mining mode pauses.
#[derive(Debug, Clone, Copy, PartialEq, Eq, Structural)]
pub enum Pause {
    /// A challenge poll failed with nothing to fall back on.
    PollFailed,
    /// No challenge is active.
    NoChallenge,
    /// A search failed and the same challenge is retried.
    SearchFailed,
    /// Registering an identity failed.
    RegistrationFailed,
}

/// Seconds a mode waits at a pause; `None` where the mode waits on its
/// exponential backoff instead, and `Some(0)` where it goes on at once.
pub open spec fn pause_spec(mode: Mode, pause: Pause) -> Option<u64> {
    match (mode, pause) {
        (Mode::PersistentKey, Pause::PollFailed) => Some(60),
        (Mode::PersistentKey, Pause::SearchFailed) => Some(60),
        (Mode::Mnemonic, Pause::PollFailed) => None,
        (Mode::Mnemonic, Pause::RegistrationFailed) => None,
        (Mode::Ephemeral, Pause::PollFailed) => Some(300),
        (Mode::Ephemeral, Pause::RegistrationFailed) => Some(300),
        (Mode::Ephemeral, Pause::SearchFailed) => Some(60),
        (Mode::WalletPool, Pause::PollFailed) => Some(300),
        (Mode::WalletPool, Pause::NoChallenge) => Some(30),
        _ => Some(0),
    }
}

/// Seconds a mode waits at a pause (see `pause_spec`).
pub fn pause_seconds(mode: Mode, pause: Pause) -> (r: Option<u64>)
    ensures
        r == pause_spec(mode, pause),
{
    match (mode, pause) {
        (Mode::PersistentKey, Pause::PollFailed) => Some(60),
        (Mode::PersistentKey, Pause::SearchFailed) => Some(60),
        (Mode::Mnemonic, Pause::PollFailed) => None,
        (Mode::Mnemonic, Pause::RegistrationFailed) => None,
        (Mode::Ephemeral, Pause::PollFailed) => Some(300),
        (Mode::Ephemeral, Pause::RegistrationFailed) => Some(300),
        (Mode::Ephemeral, Pause::SearchFailed) => Some(60),
        (Mode::WalletPool, Pause::PollFailed) => Some(300),
        (Mode::WalletPool, Pause::NoChallenge) => Some(30),
        _ => Some(0),
    }
}

/// Seconds between two polls of the rotation monitor, and between two
/// polls while waiting for the next challenge after a round.
pub const ROTATION_POLL_SECS: u64 = 30;

/// Seconds between two renders of the dashboard.
pub const DISPLAY_SECS: u64 = 2;

/// Renders between two refreshes of the network statistics.
pub const STATS_REFRESH_RENDERS: u64 = 15;

/// Whether the dashboard refreshes the network statistics at this render.
pub fn refreshes_stats(render: u64) -> (r: bool)
    ensures
        r == (render % STATS_REFRESH_RENDERS == 0),
{
    render % STATS_REFRESH_RENDERS == 0
}

} // verus!
