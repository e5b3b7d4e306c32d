//! The chain side of the contract: the store, the address validator, the
//! administrator registry and the list of barred hosts, as `cosmwasm_std`,
//! `cw_storage_plus`, `cw_controllers`, `cw0` and `cw2` provide them.
//!
//! Nothing in this file is proved. Each function with a body here calls into
//! one of those crates, and its contract says what that call does. The rest of
//! the crate is proved from these contracts.
//!
//! The store keeps every value as JSON, written by `serde_json_wasm`. What
//! this crate and `cw_controllers` write there are strings, small numbers and
//! tuples, lists, options and records of these. Writing those has no failing
//! path in `serde_json_wasm::ser`, and reading gives back what was written. So
//! the contracts below say that a write succeeds, and that a store that holds
//! only such values can be read.

use crate::error::{AdminFailure, ContractError, HookFailure};
use crate::record::{
    advance, advance_stored, advanced, answerable, stored_option_view, stored_view, MatchKey,
    Refusal, Step, Stored, StoredView,
};
use crate::state::State;
use cosmwasm_std::testing::{mock_info, MockApi, MockQuerier};
use cosmwasm_std::{Addr, Api, Deps, DepsMut, Empty, Env, MemoryStorage, QuerierWrapper, StdError};
use cw_controllers::{Admin, Hooks};
use vstd::prelude::*;
use vstd::utf8::encode_utf8;

verus! {

/// The in-memory store of `cosmwasm_std`. Contracts speak of what it holds
/// through `stored_games`, `scan_order`, `stored_hooks`, `stored_admin`,
/// `stored_version` and `stored_owner`.
#[verifier::external_type_specification]
#[verifier::external_body]
pub struct ExMemoryStorage(MemoryStorage);

/// The address validator of `cosmwasm_std::testing`.
#[verifier::external_type_specification]
#[verifier::external_body]
pub struct ExMockApi(MockApi);

/// The block and transaction a command runs in. The contract never reads it.
#[verifier::external_type_specification]
#[verifier::external_body]
pub struct ExEnv(Env);

/// A failure of `cw_controllers::Admin`. Contracts speak of it through
/// `admin_failure`.
#[verifier::external_type_specification]
#[verifier::external_body]
pub struct ExAdminError(cw_controllers::AdminError);

/// A failure of `cw_controllers::Hooks`. Contracts speak of it through
/// `hook_failure`.
#[verifier::external_type_specification]
#[verifier::external_body]
pub struct ExHookError(cw_controllers::HookError);

/// The failure that an error of `cw_controllers::Admin` stands for, variant
/// by variant.
pub uninterp spec fn admin_failure(e: cw_controllers::AdminError) -> AdminFailure;

/// The failure that an error of `cw_controllers::Hooks` stands for, variant
/// by variant.
pub uninterp spec fn hook_failure(e: cw_controllers::HookError) -> HookFailure;

/// Whether the store holds nothing but what the typed accessors of this file
/// wrote: under the namespace `games` only entries of the map from pairs of
/// addresses to stored matches, and under `hooks`, `admin`, `state` and
/// `contract_info` at most the one item each that `cw_controllers`, this crate
/// and `cw2` keep there. Every such entry can be read back. The functions of
/// this file ask for such a store and leave one behind.
pub uninterp spec fn kept(storage: MemoryStorage) -> bool;

/// The matches the store holds, by host and opponent.
pub uninterp spec fn stored_games(storage: MemoryStorage) -> Map<(Seq<char>, Seq<char>), (Seq<char>, Seq<char>, u8, u8, u8)>;

/// The pairs under which the store holds matches, in the order in which the
/// store walks them.
pub uninterp spec fn scan_order(storage: MemoryStorage) -> Seq<(Seq<char>, Seq<char>)>;

/// The list of barred hosts the store holds, in the order they were added, or
/// `None` while no list was ever written.
pub uninterp spec fn stored_hooks(storage: MemoryStorage) -> Option<Seq<Seq<char>>>;

/// What the store holds of the administrator: `None` while nothing was ever
/// written, else the administrator, or `None` for a registry without one.
pub uninterp spec fn stored_admin(storage: MemoryStorage) -> Option<Option<Seq<char>>>;

/// The name and the version that the store holds under `contract_info`, as
/// `cw2` keeps them, or `None` while none were written.
pub uninterp spec fn stored_version(storage: MemoryStorage) -> Option<(Seq<char>, Seq<char>)>;

/// The owner that the store holds under `state`, or `None` while none was
/// written.
pub uninterp spec fn stored_owner(storage: MemoryStorage) -> Option<Seq<char>>;

/// The error that `StdError::generic_err` makes of a text.
pub uninterp spec fn generic_error(msg: Seq<char>) -> StdError;

/// Whether `MockApi::addr_validate` accepts `raw` as an address.
pub uninterp spec fn address_accepted(raw: Seq<char>) -> bool;

/// The longest first part of a key, in bytes, that `cw_storage_plus` can
/// prefix with its length.
pub open spec fn fits_in_key(host: Seq<char>) -> bool {
    encode_utf8(host).len() <= 0xFFFF
}

/// The strings of `v` as sequences of characters.
pub open spec fn texts(v: Seq<String>) -> Seq<Seq<char>> {
    Seq::new(v.len(), |i: int| v[i]@)
}

/// The string, if there is one, as a sequence of characters.
pub open spec fn text_option(s: Option<String>) -> Option<Seq<char>> {
    match s {
        Some(s) => Some(s@),
        None => None,
    }
}

/// The pairs of strings of `v` as pairs of sequences of characters.
pub open spec fn pairs(v: Seq<(String, String)>) -> Seq<(Seq<char>, Seq<char>)> {
    Seq::new(v.len(), |i: int| (v[i].0@, v[i].1@))
}

/// The stored matches of `v` as contracts speak of them.
pub open spec fn stored_views(v: Seq<Stored>) -> Seq<StoredView> {
    Seq::new(v.len(), |i: int| stored_view(v[i]))
}

/// The stored match that `held` has under `key`, if it has one.
pub open spec fn found_in(held: Map<MatchKey, StoredView>, key: MatchKey) -> Option<StoredView> {
    if held.contains_key(key) {
        Some(held[key])
    } else {
        None
    }
}

/// The barred hosts, none while no list was written.
pub open spec fn hooks_or_none(hooks: Option<Seq<Seq<char>>>) -> Seq<Seq<char>> {
    match hooks {
        Some(list) => list,
        None => Seq::empty(),
    }
}

/// `keys` are the pairs that `held` has a match for, each once.
pub open spec fn enumerates(keys: Seq<MatchKey>, held: Map<MatchKey, StoredView>) -> bool {
    &&& keys.no_duplicates()
    &&& forall|k: MatchKey| held.contains_key(k) <==> keys.contains(k)
}

/// `values` are the stored matches found under `keys`, one for one.
pub open spec fn values_under(
    keys: Seq<MatchKey>,
    values: Seq<StoredView>,
    held: Map<MatchKey, StoredView>,
) -> bool {
    &&& keys.len() == values.len()
    &&& forall|i: int| 0 <= i < keys.len() ==> values[i] == held[#[trigger] keys[i]]
}

/// Whether a pair has `host` as its host.
pub open spec fn hosted_by(host: Seq<char>) -> spec_fn(MatchKey) -> bool {
    |key: MatchKey| key.0 == host
}

/// What `Map::update` leaves behind: the planned match under the key, and
/// nothing changed where the plan was a refusal.
pub open spec fn updated(
    before: Map<MatchKey, StoredView>,
    key: MatchKey,
    plan: Result<StoredView, Refusal>,
    r: Result<Stored, ContractError>,
    after: Map<MatchKey, StoredView>,
) -> bool {
    match plan {
        Ok(next) => advanced(plan, key, r) && after == before.insert(key, next),
        Err(_) => advanced(plan, key, r) && after == before,
    }
}

/// What `Hooks::execute_add_hook` does, given the administrator and the list
/// before the call.
pub open spec fn hook_added(
    admin: Option<Option<Seq<char>>>,
    before: Option<Seq<Seq<char>>>,
    sender: Seq<char>,
    hook: Seq<char>,
    r: Result<Vec<(String, String)>, cw_controllers::HookError>,
    after: Option<Seq<Seq<char>>>,
) -> bool {
    match admin {
        None => r matches Err(e) && hook_failure(e) matches HookFailure::Admin(AdminFailure::Std(_))
            && after == before,
        Some(current) => if current != Some(sender) {
            r matches Err(e) && hook_failure(e) == HookFailure::Admin(AdminFailure::NotAdmin) && after
                == before
        } else if hooks_or_none(before).contains(hook) {
            r matches Err(e) && hook_failure(e) == HookFailure::HookAlreadyRegistered && after
                == before
        } else {
            r matches Ok(attributes) && after == Some(hooks_or_none(before).push(hook)) && pairs(
                attributes@,
            ) == seq![("action"@, "add_hook"@), ("hook"@, hook), ("sender"@, sender)]
        },
    }
}

/// `after` is `before` without the first occurrence of `hook`.
pub open spec fn first_removed(before: Seq<Seq<char>>, hook: Seq<char>, after: Seq<Seq<char>>) -> bool {
    exists|p: int|
        0 <= p < before.len() && before[p] == hook && (forall|j: int|
            0 <= j < p ==> before[j] != hook) && after == #[trigger] before.remove(p)
}

/// What `Hooks::execute_remove_hook` does, given the administrator and the
/// list before the call.
pub open spec fn hook_removed(
    admin: Option<Option<Seq<char>>>,
    before: Option<Seq<Seq<char>>>,
    sender: Seq<char>,
    hook: Seq<char>,
    r: Result<Vec<(String, String)>, cw_controllers::HookError>,
    after: Option<Seq<Seq<char>>>,
) -> bool {
    match admin {
        None => r matches Err(e) && hook_failure(e) matches HookFailure::Admin(AdminFailure::Std(_))
            && after == before,
        Some(current) => if current != Some(sender) {
            r matches Err(e) && hook_failure(e) == HookFailure::Admin(AdminFailure::NotAdmin) && after
                == before
        } else {
            match before {
                None => r matches Err(e) && hook_failure(e) is Std && after == before,
                Some(list) => if !list.contains(hook) {
                    r matches Err(e) && hook_failure(e) == HookFailure::HookNotRegistered && after
                        == before
                } else {
                    r matches Ok(attributes) && (after matches Some(rest) && first_removed(
                        list,
                        hook,
                        rest,
                    )) && pairs(attributes@) == seq![
                        ("action"@, "remove_hook"@),
                        ("hook"@, hook),
                        ("sender"@, sender),
                    ]
                },
            }
        },
    }
}

/// The text `Admin::execute_update_admin` reports for the new administrator.
pub open spec fn admin_text(admin: Option<Seq<char>>) -> Seq<char> {
    match admin {
        Some(a) => a,
        None => "None"@,
    }
}

/// What `Admin::execute_update_admin` does, given the administrator before
/// the call.
pub open spec fn admin_updated(
    before: Option<Option<Seq<char>>>,
    sender: Seq<char>,
    new_admin: Option<Seq<char>>,
    r: Result<Vec<(String, String)>, cw_controllers::AdminError>,
    after: Option<Option<Seq<char>>>,
) -> bool {
    match before {
        None => r matches Err(e) && admin_failure(e) is Std && after == before,
        Some(current) => if current != Some(sender) {
            r matches Err(e) && admin_failure(e) == AdminFailure::NotAdmin && after == before
        } else {
            r matches Ok(attributes) && after == Some(new_admin) && pairs(attributes@) == seq![
                ("action"@, "update_admin"@),
                ("admin"@, admin_text(new_admin)),
                ("sender"@, sender),
            ]
        },
    }
}

/// `MemoryStorage::new`: a store that holds nothing.
#[verifier::external_body]
pub(crate) fn storage_new() -> (r: MemoryStorage)
    ensures
        kept(r),
        stored_games(r) =~= Map::empty(),
        scan_order(r) =~= Seq::empty(),
        stored_hooks(r) is None,
        stored_admin(r) is None,
        stored_version(r) is None,
        stored_owner(r) is None,
{
    MemoryStorage::new()
}

/// `MockApi::default`: the address validator.
#[verifier::external_body]
pub(crate) fn api_default() -> MockApi {
    MockApi::default()
}

/// `StdError::generic_err`: the generic error that carries `msg`, the same
/// for the same text.
#[verifier::external_body]
pub(crate) fn generic_err(msg: &str) -> (r: StdError)
    ensures
        r == generic_error(msg@),
{
    StdError::generic_err(msg)
}

/// `Api::addr_validate` of `MockApi`. Whether it accepts an input depends on
/// the input alone; an accepted input comes back unchanged and is at most 90
/// bytes long.
#[verifier::external_body]
pub(crate) fn addr_validate(api: &MockApi, raw: &str) -> (r: Result<String, StdError>)
    ensures
        r is Ok <==> address_accepted(raw@),
        r matches Ok(address) ==> address@ == raw@ && encode_utf8(raw@).len() <= 90,
{
    api.addr_validate(raw).map(String::from)
}

/// `cw0::maybe_addr`: `addr_validate` on the address, if there is one.
#[verifier::external_body]
pub(crate) fn maybe_addr(api: &MockApi, human: Option<String>) -> (r: Result<Option<String>, StdError>)
    ensures
        human is None ==> r matches Ok(None),
        human matches Some(raw) ==> (r is Ok <==> address_accepted(raw@)),
        human matches Some(raw) ==> (r matches Ok(checked) ==> text_option(checked) == Some(raw@)
            && encode_utf8(raw@).len() <= 90),
{
    cw0::maybe_addr(api, human).map(|checked| checked.map(String::from))
}

/// `Map::may_load` on the map `games`: the stored match under the key, if
/// there is one.
#[verifier::external_body]
pub(crate) fn games_may_load(storage: &MemoryStorage, host: &String, opponent: &String) -> (r: Result<
    Option<Stored>,
    StdError,
>)
    requires
        kept(*storage),
        fits_in_key(host@),
    ensures
        r is Ok,
        r matches Ok(found) ==> stored_option_view(found) == found_in(
            stored_games(*storage),
            (host@, opponent@),
        ),
{
    let key = (Addr::unchecked(host.as_str()), Addr::unchecked(opponent.as_str()));
    cw_storage_plus::Map::<(Addr, Addr), Stored>::new("games").may_load(storage, key)
}

/// `Map::update` on the map `games`, with `advance` as the action: loads what
/// is under the key, lets `advance` decide, and writes what it returns. Where
/// `advance` refuses, the store is as it was. What is under the key is what
/// `advance` is handed, so it must be something that `advance` takes.
#[verifier::external_body]
pub(crate) fn games_update(storage: &mut MemoryStorage, host: &String, opponent: &String, step: &Step) -> (r:
    Result<Stored, ContractError>)
    requires
        kept(*old(storage)),
        fits_in_key(host@),
        answerable(found_in(stored_games(*old(storage)), (host@, opponent@)), *step),
    ensures
        kept(*final(storage)),
        stored_version(*final(storage)) == stored_version(*old(storage)),
        stored_owner(*final(storage)) == stored_owner(*old(storage)),
        enumerates(scan_order(*final(storage)), stored_games(*final(storage))),
        stored_hooks(*final(storage)) == stored_hooks(*old(storage)),
        stored_admin(*final(storage)) == stored_admin(*old(storage)),
        r is Err ==> *final(storage) == *old(storage),
        updated(
            stored_games(*old(storage)),
            (host@, opponent@),
            advance_stored(found_in(stored_games(*old(storage)), (host@, opponent@)), host@, opponent@, *step),
            r,
            stored_games(*final(storage)),
        ),
    no_unwind
{
    let key = (Addr::unchecked(host.as_str()), Addr::unchecked(opponent.as_str()));
    cw_storage_plus::Map::<(Addr, Addr), Stored>::new("games").update(
        storage,
        key,
        |found| advance(found, host, opponent, step),
    )
}

/// `Map::range` on the map `games`, unbounded and ascending: every stored
/// match, in the order in which the store walks them.
#[verifier::external_body]
pub(crate) fn games_range(storage: &MemoryStorage) -> (r: Result<Vec<Stored>, StdError>)
    requires
        kept(*storage),
    ensures
        r is Ok,
        r matches Ok(values) ==> values_under(
            scan_order(*storage),
            stored_views(values@),
            stored_games(*storage),
        ),
{
    cw_storage_plus::Map::<(Addr, Addr), Stored>::new("games")
        .range(storage, None, None, cosmwasm_std::Order::Ascending)
        .map(|entry| entry.map(|pair| pair.1))
        .collect()
}

/// `Map::prefix` and `Prefix::range` on the map `games`, unbounded and
/// ascending: every stored match whose host is `host`, in the order in which
/// the store walks them.
#[verifier::external_body]
pub(crate) fn games_prefix_range(storage: &MemoryStorage, host: &String) -> (r: Result<Vec<Stored>, StdError>)
    requires
        kept(*storage),
        fits_in_key(host@),
    ensures
        r is Ok,
        r matches Ok(values) ==> values_under(
            scan_order(*storage).filter(hosted_by(host@)),
            stored_views(values@),
            stored_games(*storage),
        ),
{
    cw_storage_plus::Map::<(Addr, Addr), Stored>::new("games")
        .prefix(Addr::unchecked(host.as_str()))
        .range(storage, None, None, cosmwasm_std::Order::Ascending)
        .map(|entry| entry.map(|pair| pair.1))
        .collect()
}

/// `Item::save` on the item `state`: writes the owner, which succeeds.
/// Matches, barred hosts, administrator, name and version stay as they are.
#[verifier::external_body]
pub(crate) fn state_save(storage: &mut MemoryStorage, state: &State) -> (r: Result<(), StdError>)
    requires
        kept(*old(storage)),
    ensures
        kept(*final(storage)),
        stored_owner(*final(storage)) == Some(state.owner@),
        stored_version(*final(storage)) == stored_version(*old(storage)),
        stored_games(*final(storage)) == stored_games(*old(storage)),
        scan_order(*final(storage)) == scan_order(*old(storage)),
        stored_hooks(*final(storage)) == stored_hooks(*old(storage)),
        stored_admin(*final(storage)) == stored_admin(*old(storage)),
        r is Ok,
    no_unwind
{
    cw_storage_plus::Item::<String>::new("state").save(storage, &state.owner)
}

/// `cw2::set_contract_version`: writes name and version under
/// `contract_info`, which succeeds. Matches, barred hosts, administrator and
/// owner stay as they are.
#[verifier::external_body]
pub(crate) fn set_contract_version(storage: &mut MemoryStorage, name: &str, version: &str) -> (r: Result<
    (),
    StdError,
>)
    requires
        kept(*old(storage)),
    ensures
        kept(*final(storage)),
        stored_version(*final(storage)) == Some((name@, version@)),
        stored_owner(*final(storage)) == stored_owner(*old(storage)),
        stored_games(*final(storage)) == stored_games(*old(storage)),
        scan_order(*final(storage)) == scan_order(*old(storage)),
        stored_hooks(*final(storage)) == stored_hooks(*old(storage)),
        stored_admin(*final(storage)) == stored_admin(*old(storage)),
        r is Ok,
    no_unwind
{
    cw2::set_contract_version(storage, name, version)
}

/// `Hooks::query_hooks` on the item `hooks`: the barred hosts in the order
/// they were added, none while no list was written.
#[verifier::external_body]
pub(crate) fn hooks_query(storage: &MemoryStorage, api: &MockApi) -> (r: Result<Vec<String>, StdError>)
    requires
        kept(*storage),
    ensures
        r is Ok,
        r matches Ok(list) ==> texts(list@) == hooks_or_none(stored_hooks(*storage)),
{
    let querier = MockQuerier::<Empty>::default();
    let deps = Deps { storage, api, querier: QuerierWrapper::new(&querier) };
    Hooks::new("hooks").query_hooks(deps).map(|found| found.hooks)
}

/// `Hooks::execute_add_hook` with the registry `admin`: where `sender` is the
/// administrator and `hook` is not on the list, `hook` goes to its end and
/// the call reports action, hook and sender.
#[verifier::external_body]
pub(crate) fn hooks_execute_add(storage: &mut MemoryStorage, api: &MockApi, sender: &str, hook: String) -> (r:
    Result<Vec<(String, String)>, cw_controllers::HookError>)
    requires
        kept(*old(storage)),
    ensures
        kept(*final(storage)),
        stored_version(*final(storage)) == stored_version(*old(storage)),
        stored_owner(*final(storage)) == stored_owner(*old(storage)),
        stored_games(*final(storage)) == stored_games(*old(storage)),
        scan_order(*final(storage)) == scan_order(*old(storage)),
        stored_admin(*final(storage)) == stored_admin(*old(storage)),
        r is Err ==> *final(storage) == *old(storage),
        hook_added(
            stored_admin(*old(storage)),
            stored_hooks(*old(storage)),
            sender@,
            hook@,
            r,
            stored_hooks(*final(storage)),
        ),
    no_unwind
{
    let querier = MockQuerier::<Empty>::default();
    let deps = DepsMut { storage, api, querier: QuerierWrapper::new(&querier) };
    let info = mock_info(sender, &[]);
    Hooks::new("hooks")
        .execute_add_hook::<Empty>(&Admin::new("admin"), deps, info, Addr::unchecked(hook))
        .map(|done| done.attributes.into_iter().map(|a| (a.key, a.value)).collect())
}

/// `Hooks::execute_remove_hook` with the registry `admin`: where `sender` is
/// the administrator and `hook` is on the list, its first occurrence leaves
/// the list and the call reports action, hook and sender.
#[verifier::external_body]
pub(crate) fn hooks_execute_remove(storage: &mut MemoryStorage, api: &MockApi, sender: &str, hook: String) -> (r:
    Result<Vec<(String, String)>, cw_controllers::HookError>)
    requires
        kept(*old(storage)),
    ensures
        kept(*final(storage)),
        stored_version(*final(storage)) == stored_version(*old(storage)),
        stored_owner(*final(storage)) == stored_owner(*old(storage)),
        stored_games(*final(storage)) == stored_games(*old(storage)),
        scan_order(*final(storage)) == scan_order(*old(storage)),
        stored_admin(*final(storage)) == stored_admin(*old(storage)),
        r is Err ==> *final(storage) == *old(storage),
        hook_removed(
            stored_admin(*old(storage)),
            stored_hooks(*old(storage)),
            sender@,
            hook@,
            r,
            stored_hooks(*final(storage)),
        ),
    no_unwind
{
    let querier = MockQuerier::<Empty>::default();
    let deps = DepsMut { storage, api, querier: QuerierWrapper::new(&querier) };
    let info = mock_info(sender, &[]);
    Hooks::new("hooks")
        .execute_remove_hook::<Empty>(&Admin::new("admin"), deps, info, Addr::unchecked(hook))
        .map(|done| done.attributes.into_iter().map(|a| (a.key, a.value)).collect())
}

/// `Admin::set` on the registry `admin`: writes the administrator, which
/// succeeds.
#[verifier::external_body]
pub(crate) fn admin_set(storage: &mut MemoryStorage, api: &MockApi, admin: Option<String>) -> (r: Result<
    (),
    StdError,
>)
    requires
        kept(*old(storage)),
    ensures
        kept(*final(storage)),
        stored_version(*final(storage)) == stored_version(*old(storage)),
        stored_owner(*final(storage)) == stored_owner(*old(storage)),
        stored_games(*final(storage)) == stored_games(*old(storage)),
        scan_order(*final(storage)) == scan_order(*old(storage)),
        stored_hooks(*final(storage)) == stored_hooks(*old(storage)),
        r is Ok,
        r is Ok ==> stored_admin(*final(storage)) == Some(text_option(admin)),
    no_unwind
{
    let querier = MockQuerier::<Empty>::default();
    let deps = DepsMut { storage, api, querier: QuerierWrapper::new(&querier) };
    Admin::new("admin").set(deps, admin.map(Addr::unchecked))
}

/// `Admin::execute_update_admin` on the registry `admin`: where `sender` is
/// the administrator, `new_admin` takes the role and the call reports action,
/// new administrator and sender.
#[verifier::external_body]
pub(crate) fn admin_execute_update(
    storage: &mut MemoryStorage,
    api: &MockApi,
    sender: &str,
    new_admin: Option<String>,
) -> (r: Result<Vec<(String, String)>, cw_controllers::AdminError>)
    requires
        kept(*old(storage)),
    ensures
        kept(*final(storage)),
        stored_version(*final(storage)) == stored_version(*old(storage)),
        stored_owner(*final(storage)) == stored_owner(*old(storage)),
        stored_games(*final(storage)) == stored_games(*old(storage)),
        scan_order(*final(storage)) == scan_order(*old(storage)),
        stored_hooks(*final(storage)) == stored_hooks(*old(storage)),
        r is Err ==> *final(storage) == *old(storage),
        admin_updated(
            stored_admin(*old(storage)),
            sender@,
            text_option(new_admin),
            r,
            stored_admin(*final(storage)),
        ),
    no_unwind
{
    let querier = MockQuerier::<Empty>::default();
    let deps = DepsMut { storage, api, querier: QuerierWrapper::new(&querier) };
    let info = mock_info(sender, &[]);
    Admin::new("admin")
        .execute_update_admin::<Empty>(deps, info, new_admin.map(Addr::unchecked))
        .map(|done| done.attributes.into_iter().map(|a| (a.key, a.value)).collect())
}

/// Tells the variants of `cw_controllers::AdminError` apart.
#[verifier::external_body]
pub(crate) fn admin_error_from(e: cw_controllers::AdminError) -> (r: AdminFailure)
    ensures
        r == admin_failure(e),
{
    match e {
        cw_controllers::AdminError::Std(e) => AdminFailure::Std(e),
        cw_controllers::AdminError::NotAdmin {} => AdminFailure::NotAdmin,
    }
}

/// Tells the variants of `cw_controllers::HookError` apart.
#[verifier::external_body]
pub(crate) fn hook_error_from(e: cw_controllers::HookError) -> (r: HookFailure)
    ensures
        r == hook_failure(e),
{
    match e {
        cw_controllers::HookError::Std(e) => HookFailure::Std(e),
        cw_controllers::HookError::Admin(cw_controllers::AdminError::Std(e)) => {
            HookFailure::Admin(AdminFailure::Std(e))
        },
        cw_controllers::HookError::Admin(cw_controllers::AdminError::NotAdmin {}) => {
            HookFailure::Admin(AdminFailure::NotAdmin)
        },
        cw_controllers::HookError::HookAlreadyRegistered {} => HookFailure::HookAlreadyRegistered,
        cw_controllers::HookError::HookNotRegistered {} => HookFailure::HookNotRegistered,
    }
}

/// `Admin::query_admin` on the registry `admin`: the administrator, or an
/// error while none was ever written.
#[verifier::external_body]
pub(crate) fn admin_query(storage: &MemoryStorage, api: &MockApi) -> (r: Result<Option<String>, StdError>)
    requires
        kept(*storage),
    ensures
        r is Err <==> stored_admin(*storage) is None,
        r matches Ok(found) ==> stored_admin(*storage) == Some(text_option(found)),
{
    let querier = MockQuerier::<Empty>::default();
    let deps = Deps { storage, api, querier: QuerierWrapper::new(&querier) };
    Admin::new("admin").query_admin(deps).map(|found| found.admin)
}

} // verus!
