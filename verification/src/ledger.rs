//! The ledger: every match on record, the administrator and the list of
//! barred hosts, with the operations the contract is built from.

use crate::chain::{
    addr_validate, address_accepted, admin_error_from, admin_execute_update, admin_query,
    admin_set, api_default, enumerates, first_removed, fits_in_key, found_in, games_may_load,
    games_prefix_range, games_range, games_update, hook_error_from, hooks_execute_add,
    hooks_execute_remove, hooks_or_none, hooks_query, hosted_by, kept, maybe_addr, pairs,
    scan_order, set_contract_version, state_save, storage_new, stored_admin, stored_games,
    stored_hooks, stored_owner, stored_version, texts, updated,
};
use crate::error::{AdminFailure, ContractError, HookFailure};
use crate::msg::Response;
use crate::record::{
    advance_spec, advance_stored, codes_in_range, from_stored, lemma_record_of_stored,
    read_stored, record_of, stored_of, stored_view, MatchKey, Refusal, Step, Stored, StoredView,
};
use crate::seq_facts::{lemma_filter_keeps, lemma_filter_keeps_all, lemma_filter_keeps_none};
use crate::state::{GameState, GameStateView, State};
use cosmwasm_std::testing::MockApi;
use cosmwasm_std::{MemoryStorage, StdError};
use vstd::prelude::*;

verus! {

/// A stored match is filed under its own host and opponent, its host fits in
/// a key, its numbers stand for something and the match is well formed.
pub open spec fn entry_in_order(key: MatchKey, entry: StoredView) -> bool {
    &&& entry.0 == key.0
    &&& entry.1 == key.1
    &&& fits_in_key(key.0)
    &&& codes_in_range(entry)
    &&& record_of(entry).well_formed()
}

/// Every stored match is in order.
pub open spec fn entries_in_order(stored: Map<MatchKey, StoredView>) -> bool {
    forall|k: MatchKey| stored.contains_key(k) ==> entry_in_order(k, #[trigger] stored[k])
}

/// The matches that a map of stored forms stands for.
pub open spec fn decoded(stored: Map<MatchKey, StoredView>) -> Map<MatchKey, GameStateView> {
    Map::new(|k: MatchKey| stored.contains_key(k), |k: MatchKey| record_of(stored[k]))
}

/// The administrator on record, once one was written, is an accepted address.
pub open spec fn admin_in_order(admin: Option<Option<Seq<char>>>) -> bool {
    admin matches Some(current) ==> (current matches Some(address) && address_accepted(address))
}

/// The match on record under `key`, if there is one.
pub open spec fn found(games: Map<MatchKey, GameStateView>, key: MatchKey) -> Option<GameStateView> {
    if games.contains_key(key) {
        Some(games[key])
    } else {
        None
    }
}

/// What a conditional write leaves behind. Where the step can be taken, the
/// match it gives is on record under the key and comes back. Where it cannot,
/// the reason comes back and the matches are as they were.
pub open spec fn upserted(
    before: Map<MatchKey, GameStateView>,
    key: MatchKey,
    step: Step,
    r: Result<GameState, ContractError>,
    after: Map<MatchKey, GameStateView>,
) -> bool {
    match advance_spec(found(before, key), key.0, key.1, step) {
        Ok(next) => r matches Ok(game) && game@ == next && after == before.insert(key, next),
        Err(Refusal::Duplicate) => r matches Err(ContractError::HostOpponentPairAlreadyHasGame)
            && after == before,
        Err(Refusal::Missing) => r matches Err(
            ContractError::NoGameFoundForHostOpponentPair { host_address, opponent_address },
        ) && host_address@ == key.0 && opponent_address@ == key.1 && after == before,
    }
}

/// What appointing an administrator leaves behind: an address that is not
/// accepted is refused and nothing changes, an accepted one is the
/// administrator. The matches and the barred hosts stay as they are.
pub open spec fn appointed(before: Ledger, raw: Seq<char>, r: Result<(), StdError>, after: Ledger) -> bool {
    &&& after.games() == before.games()
    &&& after.order() == before.order()
    &&& after.version() == before.version()
    &&& after.owner() == before.owner()
    &&& after.hook_list() == before.hook_list()
    &&& r is Ok <==> Ledger::accepts(raw)
    &&& r is Ok ==> after.admin() == Some(raw)
    &&& r is Err ==> after == before
}

/// What handing the administrator's role on leaves behind. An address that is
/// not accepted is refused first. Before the contract was set up the registry
/// fails. A sender who is not the administrator is unauthorized. Else the new
/// administrator is on record and the call reports action, administrator and
/// sender. After any failure the ledger is as it was.
pub open spec fn admin_handed_on(
    before: Ledger,
    sender: Seq<char>,
    raw: Seq<char>,
    r: Result<Response, ContractError>,
    after: Ledger,
) -> bool {
    &&& after.games() == before.games()
    &&& after.order() == before.order()
    &&& after.version() == before.version()
    &&& after.owner() == before.owner()
    &&& after.hook_list() == before.hook_list()
    &&& r is Err ==> after == before
    &&& if !Ledger::accepts(raw) {
        r matches Err(ContractError::Std(_))
    } else {
        match before.admin() {
            None => r matches Err(ContractError::Admin(AdminFailure::Std(_))),
            Some(current) => if current != sender {
                r matches Err(ContractError::Unauthorized)
            } else {
                r matches Ok(response) && after.admin() == Some(raw) && response@ == seq![
                    ("action"@, "update_admin"@),
                    ("admin"@, raw),
                    ("sender"@, sender),
                ]
            },
        }
    }
}

/// What barring a host leaves behind. Before the contract was set up the
/// registry fails. A sender who is not the administrator is unauthorized. A
/// host that is barred already is refused. Else the host is the last of the
/// barred and the call reports action, host and sender. After any failure the
/// ledger is as it was.
pub open spec fn barred_added(
    before: Ledger,
    sender: Seq<char>,
    hook: Seq<char>,
    r: Result<Response, ContractError>,
    after: Ledger,
) -> bool {
    &&& after.games() == before.games()
    &&& after.order() == before.order()
    &&& after.version() == before.version()
    &&& after.owner() == before.owner()
    &&& after.admin() == before.admin()
    &&& r is Err ==> after == before
    &&& match before.admin() {
        None => r matches Err(ContractError::Hook(HookFailure::Admin(AdminFailure::Std(_)))),
        Some(current) => if current != sender {
            r matches Err(ContractError::Unauthorized)
        } else if before.barred().contains(hook) {
            r matches Err(ContractError::Hook(HookFailure::HookAlreadyRegistered))
        } else {
            r matches Ok(response) && after.hook_list() == Some(before.barred().push(hook))
                && response@ == seq![("action"@, "add_hook"@), ("hook"@, hook), ("sender"@, sender)]
        },
    }
}

/// What lifting the bar on a host leaves behind. Before the contract was set
/// up the registry fails. A sender who is not the administrator is
/// unauthorized. While no host was ever barred the list fails. A host that is
/// not barred is refused. Else its first entry has left the list and the call
/// reports action, host and sender. After any failure the ledger is as it
/// was.
pub open spec fn barred_removed(
    before: Ledger,
    sender: Seq<char>,
    hook: Seq<char>,
    r: Result<Response, ContractError>,
    after: Ledger,
) -> bool {
    &&& after.games() == before.games()
    &&& after.order() == before.order()
    &&& after.version() == before.version()
    &&& after.owner() == before.owner()
    &&& after.admin() == before.admin()
    &&& r is Err ==> after == before
    &&& match before.admin() {
        None => r matches Err(ContractError::Hook(HookFailure::Admin(AdminFailure::Std(_)))),
        Some(current) => if current != sender {
            r matches Err(ContractError::Unauthorized)
        } else {
            match before.hook_list() {
                None => r matches Err(ContractError::Hook(HookFailure::Std(_))),
                Some(list) => if !list.contains(hook) {
                    r matches Err(ContractError::Hook(HookFailure::HookNotRegistered))
                } else {
                    r matches Ok(response) && (after.hook_list() matches Some(rest)
                        && first_removed(list, hook, rest)) && response@ == seq![
                        ("action"@, "remove_hook"@),
                        ("hook"@, hook),
                        ("sender"@, sender),
                    ]
                },
            }
        },
    }
}

/// Which matches a listing asks for.
pub enum Selection {
    /// Every match.
    All,
    /// The matches that this identity hosts.
    Host(Seq<char>),
    /// The matches in which this identity is the opponent.
    Opponent(Seq<char>),
}

impl Selection {
    /// Whether the listing asks for the match under `key`.
    pub open spec fn selects(self, key: MatchKey) -> bool {
        match self {
            Selection::All => true,
            Selection::Host(host) => key.0 == host,
            Selection::Opponent(opponent) => key.1 == opponent,
        }
    }

    /// The same as a function of the pair.
    pub open spec fn chooser(self) -> spec_fn(MatchKey) -> bool {
        |key: MatchKey| self.selects(key)
    }
}

/// The matches of `records` as contracts speak of them.
pub open spec fn views(records: Seq<GameState>) -> Seq<GameStateView> {
    Seq::new(records.len(), |i: int| records[i]@)
}

/// No two of `records` have the same host and opponent.
pub open spec fn distinct_keys(records: Seq<GameStateView>) -> bool {
    forall|i: int, j: int|
        0 <= i < j < records.len() ==> (#[trigger] records[i]).key() != (#[trigger] records[j]).key()
}

/// `records` are the matches of `games` that `selection` asks for: each of
/// them is on record under its own key and asked for, none comes twice, and
/// none that is asked for is missing.
pub open spec fn lists_matches(
    records: Seq<GameStateView>,
    games: Map<MatchKey, GameStateView>,
    selection: Selection,
) -> bool {
    &&& forall|i: int|
        0 <= i < records.len() ==> {
            let key = (#[trigger] records[i]).key();
            games.contains_key(key) && games[key] == records[i] && selection.selects(key)
        }
    &&& distinct_keys(records)
    &&& forall|k: MatchKey| #[trigger]
        games.contains_key(k) && selection.selects(k) ==> exists|i: int|
            0 <= i < records.len() && (#[trigger] records[i]).key() == k
}

/// Reads every stored match of `values`.
fn read_all(values: &Vec<Stored>) -> (r: Vec<GameState>)
    ensures
        r@.len() == values@.len(),
        forall|i: int| 0 <= i < r@.len() ==> (#[trigger] r@[i])@ == record_of(stored_view(values@[i])),
{
    let mut records: Vec<GameState> = Vec::new();
    let mut i: usize = 0;
    while i < values.len()
        invariant
            i <= values@.len(),
            records@.len() == i,
            forall|j: int|
                0 <= j < i ==> (#[trigger] records@[j])@ == record_of(stored_view(values@[j])),
        decreases values@.len() - i,
    {
        records.push(read_stored(&values[i]));
        i += 1;
    }
    records
}

/// Whether `text` is short enough to be the host of a key.
pub fn key_fits(text: &str) -> (r: bool)
    ensures
        r == fits_in_key(text@),
{
    broadcast use vstd::slice::axiom_spec_len;

    text.as_bytes().len() <= 0xFFFF
}

/// The state of the contract: the matches, the administrator and the list of
/// barred hosts, in a store of `cosmwasm_std`, and the validator that says
/// which addresses are accepted.
pub struct Ledger {
    storage: MemoryStorage,
    api: MockApi,
}

impl Ledger {
    /// What holds of every ledger: the store holds only what this crate
    /// wrote, it walks every pair that has a match once, every match in it
    /// is in order, and so is the administrator.
    #[verifier::type_invariant]
    pub closed spec fn inv(self) -> bool {
        &&& kept(self.storage)
        &&& enumerates(scan_order(self.storage), stored_games(self.storage))
        &&& entries_in_order(stored_games(self.storage))
        &&& admin_in_order(stored_admin(self.storage))
    }

    /// The matches on record, by host and opponent.
    pub closed spec fn games(self) -> Map<MatchKey, GameStateView> {
        decoded(stored_games(self.storage))
    }

    /// The pairs that have a match on record, in the order in which the
    /// store walks them.
    pub closed spec fn order(self) -> Seq<MatchKey> {
        scan_order(self.storage)
    }

    /// The matches that `selection` asks for, in the order of the store.
    pub open spec fn listing(self, selection: Selection) -> Seq<GameStateView> {
        self.order().filter(selection.chooser()).map_values(|key: MatchKey| self.games()[key])
    }

    /// The list of barred hosts as it was written, `None` before the first
    /// host was barred.
    pub closed spec fn hook_list(self) -> Option<Seq<Seq<char>>> {
        stored_hooks(self.storage)
    }

    /// The hosts that are barred from starting matches.
    pub open spec fn barred(self) -> Seq<Seq<char>> {
        hooks_or_none(self.hook_list())
    }

    /// The administrator, `None` before the contract was set up.
    pub closed spec fn admin(self) -> Option<Seq<char>> {
        match stored_admin(self.storage) {
            Some(Some(address)) => Some(address),
            _ => None,
        }
    }

    /// The name and the version that the contract wrote down for itself,
    /// `None` before it did.
    pub closed spec fn version(self) -> Option<(Seq<char>, Seq<char>)> {
        stored_version(self.storage)
    }

    /// The owner that was written down, `None` before one was.
    pub closed spec fn owner(self) -> Option<Seq<char>> {
        stored_owner(self.storage)
    }

    /// Whether `raw` is accepted as an address.
    pub open spec fn accepts(raw: Seq<char>) -> bool {
        address_accepted(raw)
    }

    /// Every match on record is filed under its own host and opponent, is
    /// well formed, and has a host that fits in a key.
    pub proof fn lemma_games_in_order(self)
        requires
            self.inv(),
        ensures
            forall|k: MatchKey| #[trigger]
                self.games().contains_key(k) ==> self.games()[k].key() == k
                    && self.games()[k].well_formed() && fits_in_key(k.0),
    {
        let stored = stored_games(self.storage);
        assert forall|k: MatchKey| #[trigger] self.games().contains_key(k) implies self.games()[k].key()
            == k && self.games()[k].well_formed() && fits_in_key(k.0) by {
            assert(stored.contains_key(k));
            assert(entry_in_order(k, stored[k]));
        }
    }

    /// The store walks exactly the pairs that have a match on record, each
    /// once.
    pub proof fn lemma_order_is_exact(self)
        requires
            self.inv(),
        ensures
            self.order().no_duplicates(),
            forall|k: MatchKey| self.games().contains_key(k) <==> self.order().contains(k),
    {
        let stored = stored_games(self.storage);
        assert forall|k: MatchKey| self.games().contains_key(k) <==> self.order().contains(k) by {
            assert(stored.contains_key(k) <==> scan_order(self.storage).contains(k));
        }
    }

    /// A listing holds the matches on record that were asked for: each under
    /// its own pair, none twice, none missing.
    pub proof fn lemma_listing_is_exact(self, selection: Selection)
        requires
            self.inv(),
        ensures
            lists_matches(self.listing(selection), self.games(), selection),
    {
        self.lemma_games_in_order();
        self.lemma_order_is_exact();
        let chosen = self.order().filter(selection.chooser());
        let records = self.listing(selection);
        lemma_filter_keeps(self.order(), selection.chooser());
        assert forall|i: int| 0 <= i < records.len() implies {
            let key = (#[trigger] records[i]).key();
            self.games().contains_key(key) && self.games()[key] == records[i] && selection.selects(
                key,
            )
        } by {
            assert(self.order().contains(chosen[i]));
            assert(self.games().contains_key(chosen[i]));
            assert(records[i].key() == chosen[i]);
        }
        assert forall|i: int, j: int| 0 <= i < j < records.len() implies (#[trigger] records[i]).key()
            != (#[trigger] records[j]).key() by {
            assert(self.order().contains(chosen[i]));
            assert(self.order().contains(chosen[j]));
            assert(records[i].key() == chosen[i]);
            assert(records[j].key() == chosen[j]);
        }
        assert forall|k: MatchKey| #[trigger]
            self.games().contains_key(k) && selection.selects(k) implies exists|i: int|
            0 <= i < records.len() && (#[trigger] records[i]).key() == k by {
            assert(self.order().contains(k));
            let m = choose|m: int| 0 <= m < self.order().len() && self.order()[m] == k;
            assert(selection.chooser()(self.order()[m]));
            assert(chosen.contains(k));
            let i = choose|i: int| 0 <= i < chosen.len() && chosen[i] == k;
            assert(self.order().contains(chosen[i]));
            assert(records[i].key() == k);
        }
    }

    /// A ledger without matches, administrator or barred hosts.
    pub fn new() -> (r: Ledger)
        ensures
            r.inv(),
            r.games() =~= Map::empty(),
            r.order() =~= Seq::empty(),
            r.hook_list() is None,
            r.admin() is None,
            r.version() is None,
            r.owner() is None,
    {
        Ledger { storage: storage_new(), api: api_default() }
    }

    /// Checks `raw` with the address validator: an accepted address comes
    /// back unchanged.
    pub fn validate(&self, raw: &str) -> (r: Result<String, StdError>)
        ensures
            r is Ok <==> Self::accepts(raw@),
            r matches Ok(address) ==> address@ == raw@ && fits_in_key(raw@),
    {
        addr_validate(&self.api, raw)
    }

    /// The match of `host` against `opponent`, if one is on record.
    pub fn get(&self, host: &String, opponent: &String) -> (r: Option<GameState>)
        ensures
            r is Some <==> self.games().contains_key((host@, opponent@)),
            r matches Some(game) ==> game@ == self.games()[(host@, opponent@)],
    {
        proof {
            use_type_invariant(self);
            self.lemma_games_in_order();
        }
        if !key_fits(host.as_str()) {
            return None;
        }
        match games_may_load(&self.storage, host, opponent) {
            Ok(Some(t)) => Some(from_stored(t)),
            _ => None,
        }
    }

    /// The one way to write a match: loads what is on record under the key
    /// of `host` and `opponent`, lets `step` decide, and writes the match it
    /// gives. Starting a match refuses a key that is taken; answering one
    /// refuses a key that is free.
    pub fn upsert_if(&mut self, host: &String, opponent: &String, step: Step) -> (r: Result<
        GameState,
        ContractError,
    >)
        requires
            fits_in_key(host@),
        ensures
            upserted(old(self).games(), (host@, opponent@), step, r, final(self).games()),
            r is Err ==> *final(self) == *old(self),
            final(self).hook_list() == old(self).hook_list(),
            final(self).admin() == old(self).admin(),
            final(self).version() == old(self).version(),
            final(self).owner() == old(self).owner(),
    {
        proof {
            use_type_invariant(&*self);
        }
        let ghost key = (host@, opponent@);
        let ghost stored = stored_games(self.storage);
        let ghost plan = advance_spec(found(self.games(), key), key.0, key.1, step);
        let stepped = games_update(&mut self.storage, host, opponent, &step);
        proof {
            let after = stored_games(self.storage);
            assert(updated(
                stored,
                key,
                advance_stored(found_in(stored, key), host@, opponent@, step),
                stepped,
                after,
            ));
            if stored.contains_key(key) {
                assert(entry_in_order(key, stored[key]));
            }
            match plan {
                Ok(next) => {
                    lemma_record_of_stored(next);
                    if stepped is Ok {
                        assert(after == stored.insert(key, stored_of(next)));
                        assert(entry_in_order(key, stored_of(next)));
                        assert forall|k: MatchKey| after.contains_key(k) implies entry_in_order(
                            k,
                            #[trigger] after[k],
                        ) by {
                            if k != key {
                                assert(stored.contains_key(k));
                            }
                        }
                        assert(decoded(after) =~= decoded(stored).insert(key, next));
                    }
                },
                Err(_) => {},
            }
        }
        match stepped {
            Ok(t) => Ok(from_stored(t)),
            Err(e) => Err(e),
        }
    }

    /// The hosts that are barred from starting matches, in the order they
    /// were barred.
    pub fn blocked_hosts(&self) -> (r: Result<Vec<String>, StdError>)
        ensures
            r is Ok,
            r matches Ok(list) ==> texts(list@) == self.barred(),
    {
        proof {
            use_type_invariant(self);
        }
        hooks_query(&self.storage, &self.api)
    }

    /// Bars `hook` from starting matches, on the administrator's word.
    pub fn add_hook(&mut self, sender: &str, hook: String) -> (r: Result<Response, ContractError>)
        ensures
            barred_added(*old(self), sender@, hook@, r, *final(self)),
    {
        proof {
            use_type_invariant(&*self);
        }
        match hooks_execute_add(&mut self.storage, &self.api, sender, hook) {
            Ok(reported) => Ok(Response::from_pairs(&reported)),
            Err(e) => Err(ContractError::from(hook_error_from(e))),
        }
    }

    /// Lifts the bar on `hook`, on the administrator's word.
    pub fn remove_hook(&mut self, sender: &str, hook: String) -> (r: Result<Response, ContractError>)
        ensures
            barred_removed(*old(self), sender@, hook@, r, *final(self)),
    {
        proof {
            use_type_invariant(&*self);
        }
        match hooks_execute_remove(&mut self.storage, &self.api, sender, hook) {
            Ok(reported) => Ok(Response::from_pairs(&reported)),
            Err(e) => Err(ContractError::from(hook_error_from(e))),
        }
    }

    /// Makes `raw` the administrator, whoever asks, once the validator has
    /// accepted it.
    pub fn appoint(&mut self, raw: String) -> (r: Result<(), StdError>)
        ensures
            appointed(*old(self), raw@, r, *final(self)),
    {
        proof {
            use_type_invariant(&*self);
        }
        match maybe_addr(&self.api, Some(raw)) {
            Ok(checked) => admin_set(&mut self.storage, &self.api, checked),
            Err(e) => Err(e),
        }
    }

    /// Hands the administrator's role to `raw`, on the administrator's word
    /// and once the validator has accepted `raw`.
    pub fn update_admin(&mut self, sender: &str, raw: String) -> (r: Result<Response, ContractError>)
        ensures
            admin_handed_on(*old(self), sender@, raw@, r, *final(self)),
    {
        proof {
            use_type_invariant(&*self);
        }
        let checked = match maybe_addr(&self.api, Some(raw)) {
            Ok(checked) => checked,
            Err(e) => {
                return Err(ContractError::Std(e));
            },
        };
        match admin_execute_update(&mut self.storage, &self.api, sender, checked) {
            Ok(reported) => Ok(Response::from_pairs(&reported)),
            Err(e) => Err(ContractError::from(admin_error_from(e))),
        }
    }

    /// The administrator, or an error before the contract was set up.
    pub fn query_admin(&self) -> (r: Result<String, StdError>)
        ensures
            r is Ok <==> self.admin() is Some,
            r matches Ok(address) ==> self.admin() == Some(address@),
    {
        proof {
            use_type_invariant(self);
        }
        let admin_address = match admin_query(&self.storage, &self.api) {
            Ok(found) => found.unwrap(),
            Err(e) => {
                return Err(e);
            },
        };
        match maybe_addr(&self.api, Some(admin_address)) {
            Ok(checked) => Ok(checked.unwrap()),
            Err(e) => Err(e),
        }
    }

    /// Writes down the owner that `state` names, in place of any owner
    /// written before. Nothing else changes.
    pub fn record_owner(&mut self, state: &State) -> (r: Result<(), StdError>)
        ensures
            r is Ok,
            final(self).owner() == Some(state.owner@),
            final(self).version() == old(self).version(),
            final(self).games() == old(self).games(),
            final(self).order() == old(self).order(),
            final(self).hook_list() == old(self).hook_list(),
            final(self).admin() == old(self).admin(),
    {
        proof {
            use_type_invariant(&*self);
        }
        state_save(&mut self.storage, state)
    }

    /// Writes down `name` and `version` as the contract's own, in place of
    /// any written before. Nothing else changes.
    pub fn record_version(&mut self, name: &str, version: &str) -> (r: Result<(), StdError>)
        ensures
            r is Ok,
            final(self).version() == Some((name@, version@)),
            final(self).owner() == old(self).owner(),
            final(self).games() == old(self).games(),
            final(self).order() == old(self).order(),
            final(self).hook_list() == old(self).hook_list(),
            final(self).admin() == old(self).admin(),
    {
        proof {
            use_type_invariant(&*self);
        }
        set_contract_version(&mut self.storage, name, version)
    }

    /// Every match on record, in the order of the store.
    pub fn scan_all(&self) -> (r: Result<Vec<GameState>, StdError>)
        ensures
            r is Ok,
            r matches Ok(records) ==> views(records@) == self.listing(Selection::All),
    {
        proof {
            use_type_invariant(self);
        }
        match games_range(&self.storage) {
            Ok(values) => {
                let records = read_all(&values);
                proof {
                    let order = self.order();
                    lemma_filter_keeps_all(order, Selection::All.chooser());
                    assert forall|i: int| 0 <= i < order.len() implies views(records@)[i]
                        == self.games()[order[i]] by {
                        assert(order.contains(order[i]));
                    }
                    assert(views(records@) =~= self.listing(Selection::All));
                }
                Ok(records)
            },
            Err(e) => Err(e),
        }
    }

    /// Every match on record that `host` hosts, in the order of the store.
    pub fn scan_by_host_prefix(&self, host: &String) -> (r: Result<Vec<GameState>, StdError>)
        ensures
            r is Ok,
            r matches Ok(records) ==> views(records@) == self.listing(Selection::Host(host@)),
    {
        proof {
            use_type_invariant(self);
            self.lemma_games_in_order();
            self.lemma_order_is_exact();
            assert(Selection::Host(host@).chooser() =~= hosted_by(host@));
        }
        if !key_fits(host.as_str()) {
            let none: Vec<GameState> = Vec::new();
            proof {
                let order = self.order();
                assert forall|i: int| 0 <= i < order.len() implies !hosted_by(host@)(
                    #[trigger] order[i],
                ) by {
                    assert(order.contains(order[i]));
                }
                lemma_filter_keeps_none(order, hosted_by(host@));
                assert(views(none@) =~= self.listing(Selection::Host(host@)));
            }
            return Ok(none);
        }
        match games_prefix_range(&self.storage, host) {
            Ok(values) => {
                let records = read_all(&values);
                proof {
                    let chosen = self.order().filter(hosted_by(host@));
                    lemma_filter_keeps(self.order(), hosted_by(host@));
                    assert forall|i: int| 0 <= i < chosen.len() implies views(records@)[i]
                        == self.games()[chosen[i]] by {
                        assert(self.order().contains(chosen[i]));
                    }
                    assert(views(records@) =~= self.listing(Selection::Host(host@)));
                }
                Ok(records)
            },
            Err(e) => Err(e),
        }
    }
}

} // verus!
