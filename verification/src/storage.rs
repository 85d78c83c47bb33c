//! The ledger: every record the platform keeps, under typed keys.
//!
//! The store defines no policy. Reads reflect all writes made so far, in
//! program order; which writes are made, and when, is decided by the session
//! lifecycle and the reward distributor.

use crate::standings::{EpochInfo, EpochInfoView};
use crate::types::{Address, Config, EpochPlayer, Error, GameSession, Player};
use vstd::prelude::*;

verus! {

/// The key under which a record is kept.
#[derive(Clone, Copy, Debug, PartialEq, Eq, Structural)]
pub enum DataKey {
    /// The administrator's address.
    Admin,
    /// The global configuration.
    Config,
    /// The number of the active epoch.
    CurrentEpoch,
    /// The pause flag.
    Paused,
    /// A player's cross-epoch record.
    Player(Address),
    /// A player's record for one epoch.
    EpochPlayer(u32, Address),
    /// The aggregate state of an epoch.
    Epoch(u32),
    /// A game session.
    Session(u32),
    /// The allow-list flag of a game contract.
    Game(Address),
    /// The mark that a player's reward for an epoch was paid.
    Claimed(Address, u32),
}

/// A record of the ledger. `E` is the form in which epoch state is held:
/// [`EpochInfo`] in the store, [`EpochInfoView`] in its mathematical model.
#[derive(Debug)]
pub enum Record<E> {
    Admin(Address),
    Config(Config),
    CurrentEpoch(u32),
    Paused(bool),
    Player(Player),
    EpochPlayer(EpochPlayer),
    Epoch(E),
    Session(GameSession),
    Game(bool),
    Claimed(bool),
}

impl View for Record<EpochInfo> {
    type V = Record<EpochInfoView>;

    open spec fn view(&self) -> Record<EpochInfoView> {
        match *self {
            Record::Admin(a) => Record::Admin(a),
            Record::Config(c) => Record::Config(c),
            Record::CurrentEpoch(e) => Record::CurrentEpoch(e),
            Record::Paused(p) => Record::Paused(p),
            Record::Player(p) => Record::Player(p),
            Record::EpochPlayer(p) => Record::EpochPlayer(p),
            Record::Epoch(e) => Record::Epoch(e@),
            Record::Session(s) => Record::Session(s),
            Record::Game(g) => Record::Game(g),
            Record::Claimed(c) => Record::Claimed(c),
        }
    }
}

impl Clone for Record<EpochInfo> {
    fn clone(&self) -> (r: Self)
        ensures
            r@ == self@,
    {
        match self {
            Record::Admin(a) => Record::Admin(*a),
            Record::Config(c) => Record::Config(*c),
            Record::CurrentEpoch(e) => Record::CurrentEpoch(*e),
            Record::Paused(p) => Record::Paused(*p),
            Record::Player(p) => Record::Player(*p),
            Record::EpochPlayer(p) => Record::EpochPlayer(*p),
            Record::Epoch(e) => Record::Epoch(e.clone()),
            Record::Session(s) => Record::Session(*s),
            Record::Game(g) => Record::Game(*g),
            Record::Claimed(c) => Record::Claimed(*c),
        }
    }
}

/// The mathematical model of the ledger: a map from keys to records.
pub struct LedgerState {
    pub records: Map<DataKey, Record<EpochInfoView>>,
}

impl LedgerState {
    /// The ledger with `record` written under `key`.
    pub open spec fn put(self, key: DataKey, record: Record<EpochInfoView>) -> LedgerState {
        LedgerState { records: self.records.insert(key, record) }
    }

    /// The ledger without a record under `key`.
    pub open spec fn without(self, key: DataKey) -> LedgerState {
        LedgerState { records: self.records.remove(key) }
    }

    /// Whether any record is kept under `key`.
    pub open spec fn has(self, key: DataKey) -> bool {
        self.records.contains_key(key)
    }

    pub open spec fn admin(self) -> Option<Address> {
        match self.records.get(DataKey::Admin) {
            Some(Record::Admin(a)) => Some(a),
            _ => None,
        }
    }

    pub open spec fn config(self) -> Option<Config> {
        match self.records.get(DataKey::Config) {
            Some(Record::Config(c)) => Some(c),
            _ => None,
        }
    }

    /// The active epoch; epoch zero until one is set.
    pub open spec fn current_epoch(self) -> u32 {
        match self.records.get(DataKey::CurrentEpoch) {
            Some(Record::CurrentEpoch(e)) => e,
            _ => 0,
        }
    }

    /// The pause flag; not paused until it is set.
    pub open spec fn paused(self) -> bool {
        match self.records.get(DataKey::Paused) {
            Some(Record::Paused(p)) => p,
            _ => false,
        }
    }

    pub open spec fn player(self, player: Address) -> Option<Player> {
        match self.records.get(DataKey::Player(player)) {
            Some(Record::Player(p)) => Some(p),
            _ => None,
        }
    }

    pub open spec fn epoch_player(self, epoch: u32, player: Address) -> Option<EpochPlayer> {
        match self.records.get(DataKey::EpochPlayer(epoch, player)) {
            Some(Record::EpochPlayer(p)) => Some(p),
            _ => None,
        }
    }

    pub open spec fn epoch(self, epoch: u32) -> Option<EpochInfoView> {
        match self.records.get(DataKey::Epoch(epoch)) {
            Some(Record::Epoch(e)) => Some(e),
            _ => None,
        }
    }

    pub open spec fn session(self, session_id: u32) -> Option<GameSession> {
        match self.records.get(DataKey::Session(session_id)) {
            Some(Record::Session(s)) => Some(s),
            _ => None,
        }
    }

    /// Whether the game contract is on the allow-list.
    pub open spec fn whitelisted(self, game_id: Address) -> bool {
        match self.records.get(DataKey::Game(game_id)) {
            Some(Record::Game(g)) => g,
            _ => false,
        }
    }

    /// Whether the player's reward for the epoch is marked as paid.
    pub open spec fn claimed(self, player: Address, epoch: u32) -> bool {
        match self.records.get(DataKey::Claimed(player, epoch)) {
            Some(Record::Claimed(c)) => c,
            _ => false,
        }
    }
}

#[derive(Debug)]
struct Entry {
    key: DataKey,
    value: Record<EpochInfo>,
}

/// The ledger itself: at most one record under each key.
#[derive(Debug)]
pub struct EpochStore {
    entries: Vec<Entry>,
}

impl View for EpochStore {
    type V = LedgerState;

    closed spec fn view(&self) -> LedgerState {
        LedgerState {
            records: Map::new(
                |k: DataKey| self.holds(k),
                |k: DataKey| self.entries@[self.position(k)].value@,
            ),
        }
    }
}

impl EpochStore {
    #[verifier::type_invariant]
    spec fn distinct(self) -> bool {
        forall|i: int, j: int|
            0 <= i < j < self.entries@.len() ==> (#[trigger] self.entries@[i]).key != (
            #[trigger] self.entries@[j]).key
    }

    spec fn holds(&self, k: DataKey) -> bool {
        exists|i: int| 0 <= i < self.entries@.len() && (#[trigger] self.entries@[i]).key == k
    }

    spec fn position(&self, k: DataKey) -> int {
        choose|i: int| 0 <= i < self.entries@.len() && (#[trigger] self.entries@[i]).key == k
    }

    /// A ledger without records.
    pub fn new() -> (r: Self)
        ensures
            r@.records == Map::<DataKey, Record<EpochInfoView>>::empty(),
    {
        let r = EpochStore { entries: Vec::new() };
        assert(r@.records =~= Map::<DataKey, Record<EpochInfoView>>::empty());
        r
    }

    fn find(&self, key: &DataKey) -> (r: Option<usize>)
        ensures
            match r {
                Some(i) => i < self.entries@.len() && self.entries@[i as int].key == *key,
                None => !self.holds(*key),
            },
    {
        let mut i: usize = 0;
        while i < self.entries.len()
            invariant
                i <= self.entries@.len(),
                forall|k: int| 0 <= k < i ==> (#[trigger] self.entries@[k]).key != *key,
            decreases self.entries@.len() - i,
        {
            if self.entries[i].key == *key {
                return Some(i);
            }
            i += 1;
        }
        None
    }

    fn has(&self, key: &DataKey) -> (r: bool)
        ensures
            r == self@.has(*key),
    {
        self.find(key).is_some()
    }

    fn get(&self, key: &DataKey) -> (r: Option<&Record<EpochInfo>>)
        ensures
            match r {
                Some(record) => self@.records.get(*key) == Some(record@),
                None => self@.records.get(*key) is None,
            },
    {
        proof {
            use_type_invariant(self);
        }
        match self.find(key) {
            Some(i) => Some(&self.entries[i].value),
            None => None,
        }
    }

    fn put(&mut self, key: DataKey, value: Record<EpochInfo>)
        ensures
            final(self)@ == old(self)@.put(key, value@),
    {
        proof {
            use_type_invariant(&*self);
        }
        let found = self.find(&key);
        let mut entries: Vec<Entry> = Vec::new();
        core::mem::swap(&mut self.entries, &mut entries);
        let ghost target = old(self)@.records.insert(key, value@);
        match found {
            Some(i) => {
                entries.set(i, Entry { key, value });
                self.entries = entries;
            },
            None => {
                entries.push(Entry { key, value });
                self.entries = entries;
            },
        }
        proof {
            let n = old(self).entries@.len() as int;
            let at: int = match found {
                Some(i) => i as int,
                None => n,
            };
            assert(self.entries@[at].key == key);
            assert forall|k: DataKey| self.holds(k) == target.contains_key(k) by {
                if self.holds(k) {
                    let p = self.position(k);
                    if p != at {
                        assert(old(self).entries@[p].key == k);
                    }
                }
                if old(self).holds(k) {
                    let p = old(self).position(k);
                    assert(self.entries@[p].key == k);
                }
            }
            assert forall|k: DataKey| self.holds(k) implies self@.records[k] == target[k] by {
                let p = self.position(k);
                if k != key {
                    assert(old(self).entries@[p].key == k);
                    assert(old(self).position(k) == p);
                }
            }
            assert(self@.records =~= target);
        }
    }

    /// A copy of whatever is kept under `key`.
    pub(crate) fn snapshot(&self, key: &DataKey) -> (r: Option<Record<EpochInfo>>)
        ensures
            match r {
                Some(record) => self@.records.get(*key) == Some(record@),
                None => self@.records.get(*key) is None,
            },
    {
        match self.get(key) {
            Some(record) => Some(record.clone()),
            None => None,
        }
    }

    /// Puts back under `key` what a snapshot found there.
    pub(crate) fn restore(&mut self, key: &DataKey, saved: Option<Record<EpochInfo>>)
        ensures
            final(self)@ == (match saved {
                Some(record) => old(self)@.put(*key, record@),
                None => old(self)@.without(*key),
            }),
    {
        match saved {
            Some(record) => self.put(*key, record),
            None => self.remove(key),
        }
    }

    fn remove(&mut self, key: &DataKey)
        ensures
            final(self)@ == old(self)@.without(*key),
    {
        proof {
            use_type_invariant(&*self);
        }
        let found = self.find(key);
        let ghost target = old(self)@.records.remove(*key);
        match found {
            Some(i) => {
                let mut entries: Vec<Entry> = Vec::new();
                core::mem::swap(&mut self.entries, &mut entries);
                entries.remove(i);
                self.entries = entries;
                proof {
                    let at = i as int;
                    assert forall|k: DataKey| self.holds(k) == target.contains_key(k) by {
                        if self.holds(k) {
                            let p = self.position(k);
                            let q = if p < at {
                                p
                            } else {
                                p + 1
                            };
                            assert(old(self).entries@[q].key == k);
                        }
                        if old(self).holds(k) && k != *key {
                            let p = old(self).position(k);
                            let q = if p < at {
                                p
                            } else {
                                p - 1
                            };
                            assert(self.entries@[q].key == k);
                        }
                    }
                    assert forall|k: DataKey| self.holds(k) implies self@.records[k]
                        == target[k] by {
                        let p = self.position(k);
                        let q = if p < at {
                            p
                        } else {
                            p + 1
                        };
                        assert(old(self).entries@[q].key == k);
                        assert(old(self).position(k) == q);
                    }
                }
            },
            None => {},
        }
        assert(self@.records =~= target);
    }
}

/// Whether the platform has been configured.
pub fn is_initialized(store: &EpochStore) -> (r: bool)
    ensures
        r == store@.has(DataKey::Config),
{
    store.has(&DataKey::Config)
}

/// The administrator, if one is set.
pub fn get_admin(store: &EpochStore) -> (r: Option<Address>)
    ensures
        r == store@.admin(),
{
    match store.get(&DataKey::Admin) {
        Some(Record::Admin(a)) => Some(*a),
        _ => None,
    }
}

/// Sets the administrator.
pub fn set_admin(store: &mut EpochStore, admin: &Address)
    ensures
        final(store)@ == old(store)@.put(DataKey::Admin, Record::Admin(*admin)),
{
    store.put(DataKey::Admin, Record::Admin(*admin));
}

/// The global configuration, if it is set.
pub fn get_config(store: &EpochStore) -> (r: Option<Config>)
    ensures
        r == store@.config(),
{
    match store.get(&DataKey::Config) {
        Some(Record::Config(c)) => Some(*c),
        _ => None,
    }
}

/// Sets the global configuration.
pub fn set_config(store: &mut EpochStore, config: &Config)
    ensures
        final(store)@ == old(store)@.put(DataKey::Config, Record::Config(*config)),
{
    store.put(DataKey::Config, Record::Config(*config));
}

/// The number of the active epoch; zero until one is set.
pub fn get_current_epoch(store: &EpochStore) -> (r: u32)
    ensures
        r == store@.current_epoch(),
{
    match store.get(&DataKey::CurrentEpoch) {
        Some(Record::CurrentEpoch(e)) => *e,
        _ => 0,
    }
}

/// Sets the number of the active epoch.
pub fn set_current_epoch(store: &mut EpochStore, epoch: u32)
    ensures
        final(store)@ == old(store)@.put(DataKey::CurrentEpoch, Record::CurrentEpoch(epoch)),
{
    store.put(DataKey::CurrentEpoch, Record::CurrentEpoch(epoch));
}

/// A player's cross-epoch record.
pub fn get_player(store: &EpochStore, player: &Address) -> (r: Option<Player>)
    ensures
        r == store@.player(*player),
{
    match store.get(&DataKey::Player(*player)) {
        Some(Record::Player(p)) => Some(*p),
        _ => None,
    }
}

/// Writes a player's cross-epoch record.
pub fn set_player(store: &mut EpochStore, player: &Address, data: &Player)
    ensures
        final(store)@ == old(store)@.put(DataKey::Player(*player), Record::Player(*data)),
{
    store.put(DataKey::Player(*player), Record::Player(*data));
}

/// Whether a cross-epoch record is kept for the player.
pub fn has_player(store: &EpochStore, player: &Address) -> (r: bool)
    ensures
        r == store@.has(DataKey::Player(*player)),
{
    store.has(&DataKey::Player(*player))
}

/// A player's record for an epoch.
pub fn get_epoch_player(store: &EpochStore, epoch: u32, player: &Address) -> (r: Option<
    EpochPlayer,
>)
    ensures
        r == store@.epoch_player(epoch, *player),
{
    match store.get(&DataKey::EpochPlayer(epoch, *player)) {
        Some(Record::EpochPlayer(p)) => Some(*p),
        _ => None,
    }
}

/// Writes a player's record for an epoch.
pub fn set_epoch_player(store: &mut EpochStore, epoch: u32, player: &Address, data: &EpochPlayer)
    ensures
        final(store)@ == old(store)@.put(
            DataKey::EpochPlayer(epoch, *player),
            Record::EpochPlayer(*data),
        ),
{
    store.put(DataKey::EpochPlayer(epoch, *player), Record::EpochPlayer(*data));
}

/// Whether a record for the epoch is kept for the player.
pub fn has_epoch_player(store: &EpochStore, epoch: u32, player: &Address) -> (r: bool)
    ensures
        r == store@.has(DataKey::EpochPlayer(epoch, *player)),
{
    store.has(&DataKey::EpochPlayer(epoch, *player))
}

/// The aggregate state of an epoch.
pub fn get_epoch(store: &EpochStore, epoch: u32) -> (r: Option<EpochInfo>)
    ensures
        match r {
            Some(info) => store@.epoch(epoch) == Some(info@),
            None => store@.epoch(epoch) is None,
        },
{
    match store.get(&DataKey::Epoch(epoch)) {
        Some(Record::Epoch(e)) => Some(e.clone()),
        _ => None,
    }
}

/// Writes the aggregate state of an epoch.
pub fn set_epoch(store: &mut EpochStore, epoch: u32, data: &EpochInfo)
    ensures
        final(store)@ == old(store)@.put(DataKey::Epoch(epoch), Record::Epoch(data@)),
{
    store.put(DataKey::Epoch(epoch), Record::Epoch(data.clone()));
}

/// A game session.
pub fn get_session(store: &EpochStore, session_id: u32) -> (r: Option<GameSession>)
    ensures
        r == store@.session(session_id),
{
    match store.get(&DataKey::Session(session_id)) {
        Some(Record::Session(s)) => Some(*s),
        _ => None,
    }
}

/// Writes a game session.
pub fn set_session(store: &mut EpochStore, session_id: u32, data: &GameSession)
    ensures
        final(store)@ == old(store)@.put(DataKey::Session(session_id), Record::Session(*data)),
{
    store.put(DataKey::Session(session_id), Record::Session(*data));
}

/// Whether a session is kept under the id.
pub fn has_session(store: &EpochStore, session_id: u32) -> (r: bool)
    ensures
        r == store@.has(DataKey::Session(session_id)),
{
    store.has(&DataKey::Session(session_id))
}

/// Whether a game contract is on the allow-list.
pub fn is_game_whitelisted(store: &EpochStore, game_id: &Address) -> (r: bool)
    ensures
        r == store@.whitelisted(*game_id),
{
    match store.get(&DataKey::Game(*game_id)) {
        Some(Record::Game(g)) => *g,
        _ => false,
    }
}

/// Puts a game contract on the allow-list.
pub fn add_game_to_whitelist(store: &mut EpochStore, game_id: &Address)
    ensures
        final(store)@ == old(store)@.put(DataKey::Game(*game_id), Record::Game(true)),
{
    store.put(DataKey::Game(*game_id), Record::Game(true));
}

/// Takes a game contract off the allow-list.
pub fn remove_game_from_whitelist(store: &mut EpochStore, game_id: &Address)
    ensures
        final(store)@ == old(store)@.without(DataKey::Game(*game_id)),
{
    store.remove(&DataKey::Game(*game_id));
}

/// Whether the player's reward for the epoch is marked as paid.
pub fn has_claimed(store: &EpochStore, player: &Address, epoch: u32) -> (r: bool)
    ensures
        r == store@.claimed(*player, epoch),
{
    match store.get(&DataKey::Claimed(*player, epoch)) {
        Some(Record::Claimed(c)) => *c,
        _ => false,
    }
}

/// Marks the player's reward for the epoch as paid.
pub fn set_claimed(store: &mut EpochStore, player: &Address, epoch: u32)
    ensures
        final(store)@ == old(store)@.put(DataKey::Claimed(*player, epoch), Record::Claimed(true)),
{
    store.put(DataKey::Claimed(*player, epoch), Record::Claimed(true));
}

/// Whether the platform is paused.
pub fn is_paused(store: &EpochStore) -> (r: bool)
    ensures
        r == store@.paused(),
{
    match store.get(&DataKey::Paused) {
        Some(Record::Paused(p)) => *p,
        _ => false,
    }
}

/// Sets the pause flag.
pub fn set_pause_state(store: &mut EpochStore, paused: bool)
    ensures
        final(store)@ == old(store)@.put(DataKey::Paused, Record::Paused(paused)),
{
    store.put(DataKey::Paused, Record::Paused(paused));
}

/// Succeeds exactly when the platform is not paused.
pub fn require_not_paused(store: &EpochStore) -> (r: Result<(), Error>)
    ensures
        r == (if store@.paused() {
            Err::<(), Error>(Error::ContractPaused)
        } else {
            Ok::<(), Error>(())
        }),
{
    if is_paused(store) {
        Err(Error::ContractPaused)
    } else {
        Ok(())
    }
}

} // verus!
