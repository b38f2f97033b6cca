//! What holds of the contract whatever it is asked, in whatever order.

use vstd::prelude::*;
use crate::contract::{
    instantiate_step,
    issue_step,
    ledger_mint,
    mint_step,
    next_mint_json,
    next_token_id,
    reply_step,
    room_to_issue,
    INSTANTIATE_REPLY_ID,
};
use crate::decimal::lemma_decimal_injective;
use crate::entry::execute_verdict;
use crate::error::ErrorKind;
use crate::guard::verdict;
use crate::ledger::ExecuteMsg;
use crate::msg::InstantiateMsg;
use crate::reply::Callback;
use crate::response::{AttributeView, ResponseView};
use crate::state::{Config, ConfigStore, ConfigView, PolicyView};

verus! {

/// The store after the callbacks were delivered in order.
pub open spec fn after_callbacks(store: Option<ConfigView>, callbacks: Seq<Callback>) -> Option<ConfigView>
    decreases callbacks.len(),
{
    if callbacks.len() == 0 {
        store
    } else {
        reply_step(after_callbacks(store, callbacks.drop_last()), callbacks.last()).0
    }
}

/// The answer to the callback at `index`, delivered after those before it.
pub open spec fn answer_to(store: Option<ConfigView>, callbacks: Seq<Callback>, index: int) -> Result<
    ResponseView,
    ErrorKind,
> {
    reply_step(after_callbacks(store, callbacks.take(index)), callbacks[index]).1
}

/// Whether a callback answers the emitted sub-instantiation and names the
/// ledger it created.
pub open spec fn completes(callback: Callback) -> bool {
    callback.id == INSTANTIATE_REPLY_ID && callback.ledger is Some
}

/// Whether the store holds a configuration that still waits for its ledger.
pub open spec fn pending(store: Option<ConfigView>) -> bool {
    store matches Some(config) && !config.bound()
}

/// Whether `after` can follow `before` in the life of one contract: a record
/// stays, its policy and mint template stay, a bound ledger stays bound to
/// the same address, and the counter never falls.
pub open spec fn succeeds(before: Option<ConfigView>, after: Option<ConfigView>) -> bool {
    match before {
        None => after is None,
        Some(b) => after matches Some(a) && a.policy == b.policy && a.token_uri == b.token_uri && a.extension
            == b.extension && a.token_id >= b.token_id && (b.bound() ==> a.cw721_address == b.cw721_address),
    }
}

proof fn lemma_after_callbacks(store: Option<ConfigView>, callbacks: Seq<Callback>)
    ensures
        succeeds(store, after_callbacks(store, callbacks)),
        store matches Some(config) ==> after_callbacks(store, callbacks)->0.token_id == config.token_id,
        pending(after_callbacks(store, callbacks)) <==> pending(store) && forall|k: int|
            0 <= k < callbacks.len() ==> !completes(#[trigger] callbacks[k]),
    decreases callbacks.len(),
{
    if callbacks.len() > 0 {
        let front = callbacks.drop_last();
        lemma_after_callbacks(store, front);
        assert(forall|k: int| 0 <= k < front.len() ==> front[k] == callbacks[k]);
        if pending(store) && forall|k: int| 0 <= k < callbacks.len() ==> !completes(#[trigger] callbacks[k]) {
            assert(forall|k: int| 0 <= k < front.len() ==> !completes(#[trigger] front[k]));
        }
        if pending(after_callbacks(store, callbacks)) {
            assert forall|k: int| 0 <= k < callbacks.len() implies !completes(#[trigger] callbacks[k]) by {
                if k < front.len() {
                    assert(!completes(front[k]));
                }
            }
        }
    }
}

/// Binding happens exactly once. Of any run of completion callbacks, the one
/// at `index` succeeds exactly if a configuration waits for its ledger and
/// the callback is the first that answers the emitted sub-instantiation with
/// a readable response; it then binds the ledger it names.
pub proof fn law_first_completion_binds(store: Option<ConfigView>, callbacks: Seq<Callback>, index: int)
    requires
        0 <= index < callbacks.len(),
    ensures
        answer_to(store, callbacks, index) is Ok <==> pending(store) && completes(callbacks[index]) && forall|k: int|
            0 <= k < index ==> !completes(#[trigger] callbacks[k]),
        answer_to(store, callbacks, index) is Ok ==> after_callbacks(store, callbacks.take(index + 1)) == Some(
            store->0.bind(callbacks[index].ledger->0),
        ),
{
    let before = callbacks.take(index);
    lemma_after_callbacks(store, before);
    assert(forall|k: int| 0 <= k < index ==> before[k] == callbacks[k]);
    if answer_to(store, callbacks, index) is Ok {
        assert(pending(after_callbacks(store, before)));
        assert forall|k: int| 0 <= k < index implies !completes(#[trigger] callbacks[k]) by {
            assert(!completes(before[k]));
        }
        let upto = callbacks.take(index + 1);
        assert(upto.drop_last() =~= before);
        assert(upto.last() == callbacks[index]);
        assert(after_callbacks(store, before) matches Some(c) && c == store->0);
    }
    if pending(store) && completes(callbacks[index]) && forall|k: int|
        0 <= k < index ==> !completes(#[trigger] callbacks[k]) {
        assert(forall|k: int| 0 <= k < before.len() ==> !completes(#[trigger] before[k]));
    }
}

/// Binding happens at most once. Every callback delivered after one that
/// succeeded is refused because a ledger is bound already, whatever its
/// correlation id and whatever it carries.
pub proof fn law_binding_exactly_once(store: Option<ConfigView>, callbacks: Seq<Callback>, first: int, later: int)
    requires
        0 <= first < later < callbacks.len(),
        answer_to(store, callbacks, first) is Ok,
    ensures
        answer_to(store, callbacks, later) == Err::<ResponseView, ErrorKind>(ErrorKind::Cw721AlreadyLinked),
{
    law_first_completion_binds(store, callbacks, first);
    let before = callbacks.take(later);
    lemma_after_callbacks(store, before);
    assert(before[first] == callbacks[first]);
}

/// A construction succeeds and leaves a configuration that waits for its
/// ledger, whatever the store held before.
pub proof fn law_construction_awaits_binding(
    store: Option<ConfigView>,
    contract_address: Seq<char>,
    msg: InstantiateMsg,
)
    ensures
        instantiate_step(store, contract_address, msg).1 is Ok,
        pending(instantiate_step(store, contract_address, msg).0),
{
}

/// A ledger gets bound by nothing but a completion callback that carries the
/// emitted correlation id and names the ledger: where a callback leaves a
/// bound configuration behind a waiting one, it is such a callback and the
/// ledger bound is the one it names.
pub proof fn law_only_completion_binds(store: Option<ConfigView>, callback: Callback)
    requires
        pending(store),
        reply_step(store, callback).0 matches Some(config) && config.bound(),
    ensures
        completes(callback),
        reply_step(store, callback) == (
            Some(store->0.bind(callback.ledger->0)),
            Ok::<ResponseView, ErrorKind>(ResponseView::empty()),
        ),
{
}

/// A completion callback never unbinds or rebinds a ledger, never touches
/// the policy, and leaves the store as it was wherever it is refused.
pub proof fn law_reply_preserves(store: Option<ConfigView>, callback: Callback)
    ensures
        succeeds(store, reply_step(store, callback).0),
        reply_step(store, callback).1 is Err ==> reply_step(store, callback).0 == store,
{
}

/// A mint request never touches the binding or the policy, leaves the store
/// as it was wherever it is refused, and moves the counter on by one
/// wherever it succeeds.
pub proof fn law_mint_preserves(store: Option<ConfigView>, sender: Seq<char>, json: Option<Seq<u8>>)
    requires
        room_to_issue(store, sender),
    ensures
        succeeds(store, issue_step(store, sender, json).0),
        issue_step(store, sender, json).1 is Err ==> issue_step(store, sender, json).0 == store,
        issue_step(store, sender, json).1 is Ok ==> issue_step(store, sender, json).0->0.token_id == store->0.token_id
            + 1,
        succeeds(store, mint_step(store, sender).0),
        mint_step(store, sender).1 is Err ==> mint_step(store, sender).0 == store,
        mint_step(store, sender).1 is Ok ==> mint_step(store, sender).0->0.token_id == store->0.token_id + 1,
{
}

/// The store after the senders each asked for a token, in order.
pub open spec fn after_mints(store: Option<ConfigView>, senders: Seq<Seq<char>>) -> Option<ConfigView>
    decreases senders.len(),
{
    if senders.len() == 0 {
        store
    } else {
        mint_step(after_mints(store, senders.drop_last()), senders.last()).0
    }
}

/// Whether the request at `index` was granted, asked after those before it.
pub open spec fn granted(store: Option<ConfigView>, senders: Seq<Seq<char>>, index: int) -> bool {
    mint_step(after_mints(store, senders.take(index)), senders[index]).1 is Ok
}

/// The id of the token the request at `index` is about.
pub open spec fn id_at(store: Option<ConfigView>, senders: Seq<Seq<char>>, index: int) -> Seq<char> {
    next_token_id(after_mints(store, senders.take(index))->0)
}

proof fn lemma_after_mints(config: ConfigView, senders: Seq<Seq<char>>)
    requires
        config.token_id + senders.len() <= u64::MAX,
    ensures
        after_mints(Some(config), senders) is Some,
        config.token_id <= after_mints(Some(config), senders)->0.token_id <= config.token_id + senders.len(),
    decreases senders.len(),
{
    if senders.len() > 0 {
        lemma_after_mints(config, senders.drop_last());
    }
}

/// No token id is issued twice. Of any run of mint requests that the counter
/// has room for, two that were granted were about different ids.
pub proof fn law_token_ids_never_repeat(config: ConfigView, senders: Seq<Seq<char>>, first: int, later: int)
    requires
        config.token_id + senders.len() <= u64::MAX,
        0 <= first < later < senders.len(),
        granted(Some(config), senders, first),
        granted(Some(config), senders, later),
    ensures
        id_at(Some(config), senders, first) != id_at(Some(config), senders, later),
{
    let store = Some(config);
    let before = after_mints(store, senders.take(first));
    let after = after_mints(store, senders.take(first + 1));
    let rest = senders.subrange(first + 1, later);
    lemma_after_mints(config, senders.take(first));
    assert(senders.take(first + 1).drop_last() =~= senders.take(first));
    assert(senders.take(first + 1).last() == senders[first]);
    assert(after->0.token_id == before->0.token_id + 1);
    lemma_mints_compose(store, senders.take(first + 1), rest);
    assert(senders.take(first + 1) + rest =~= senders.take(later));
    lemma_after_mints(after->0, rest);
    if id_at(store, senders, first) == id_at(store, senders, later) {
        lemma_decimal_injective(
            before->0.token_id as nat,
            after_mints(store, senders.take(later))->0.token_id as nat,
        );
    }
}

proof fn lemma_mints_compose(store: Option<ConfigView>, front: Seq<Seq<char>>, back: Seq<Seq<char>>)
    ensures
        after_mints(store, front + back) == after_mints(after_mints(store, front), back),
    decreases back.len(),
{
    if back.len() == 0 {
        assert(front + back =~= front);
    } else {
        lemma_mints_compose(store, front, back.drop_last());
        assert((front + back).drop_last() =~= front + back.drop_last());
        assert((front + back).last() == back.last());
    }
}

/// Nothing succeeds before the binding. While no ledger is bound, every
/// mutating request, whoever sends it and whatever it asks, is refused as
/// uninitialized, and nothing changes.
pub proof fn law_unbound_refuses_all(store: Option<ConfigView>, sender: Seq<char>, moves_token: bool)
    requires
        store matches Some(config) ==> !config.bound(),
    ensures
        execute_verdict(store, sender, moves_token) == Err::<(), ErrorKind>(ErrorKind::Uninitialized),
        mint_step(store, sender) == (store, Err::<ResponseView, ErrorKind>(ErrorKind::Uninitialized)),
        forall|json: Option<Seq<u8>>| #[trigger]
            issue_step(store, sender, json) == (store, Err::<ResponseView, ErrorKind>(ErrorKind::Uninitialized)),
{
}

/// The transferability veto is absolute. Once a ledger is bound, a transfer
/// or a send is refused as not authorized, whoever asks and whether or not
/// the policy is satisfied.
pub proof fn law_transfer_veto<T, E>(config: ConfigView, sender: Seq<char>, msg: ExecuteMsg<T, E>)
    requires
        config.bound(),
        msg is TransferNft || msg is SendNft,
    ensures
        verdict(config, sender, msg.moves_token()) == Err::<(), ErrorKind>(ErrorKind::NotOwner),
        execute_verdict(Some(config), sender, msg.moves_token()) == Err::<(), ErrorKind>(ErrorKind::NotOwner),
{
}

/// Policy enforcement is precise. Once a ledger is bound, a request that
/// moves no token is let through exactly if the caller is the identity the
/// policy names: the owner of a single-owner policy; the admin of an
/// optional-admin policy if one is set, its minter if none is; the minter of
/// an unrestricted-minter policy. Every other caller is refused as not
/// authorized.
pub proof fn law_policy_precise(config: ConfigView, caller: Seq<char>)
    requires
        config.bound(),
    ensures
        config.policy matches PolicyView::SingleOwner { owner } ==> (verdict(config, caller, false) is Ok <==> caller
            == owner),
        config.policy matches PolicyView::OptionalAdmin { admin: Some(admin), .. } ==> (verdict(
            config,
            caller,
            false,
        ) is Ok <==> caller == admin),
        config.policy matches PolicyView::OptionalAdmin { admin: None, minter } ==> (verdict(
            config,
            caller,
            false,
        ) is Ok <==> caller == minter),
        config.policy matches PolicyView::UnrestrictedMinter { minter } ==> (verdict(config, caller, false) is Ok
            <==> caller == minter),
        verdict(config, caller, false) is Err ==> verdict(config, caller, false) == Err::<(), ErrorKind>(
            ErrorKind::NotOwner,
        ),
        mint_step(Some(config), caller).1 is Ok ==> config.policy.allows(caller),
        !config.policy.allows(caller) ==> mint_step(Some(config), caller) == (
            Some(config),
            Err::<ResponseView, ErrorKind>(ErrorKind::NotOwner),
        ),
{
}

/// Policy enforcement is precise on the mint handler, whatever the counter
/// holds. Once a ledger is bound, a mint request is refused as not
/// authorized exactly if the sender is not the identity the policy names:
/// the owner of a single-owner policy; the admin of an optional-admin policy
/// if one is set, so that the minter is refused too unless it is the admin;
/// the minter if no admin is set or the policy is the unrestricted-minter
/// one. A refused request changes nothing and sends nothing. A request of
/// the entitled sender goes to the ledger and moves the counter on.
pub proof fn law_mint_policy_precise(config: ConfigView, sender: Seq<char>)
    requires
        config.bound(),
    ensures
        mint_step(Some(config), sender).1 == Err::<ResponseView, ErrorKind>(ErrorKind::NotOwner) <==> sender
            != config.policy.principal(),
        config.policy matches PolicyView::SingleOwner { owner } ==> (mint_step(Some(config), sender).1 == Err::<
            ResponseView,
            ErrorKind,
        >(ErrorKind::NotOwner) <==> sender != owner),
        config.policy matches PolicyView::OptionalAdmin { admin: Some(admin), minter } ==> (mint_step(
            Some(config),
            sender,
        ).1 == Err::<ResponseView, ErrorKind>(ErrorKind::NotOwner) <==> sender != admin),
        config.policy matches PolicyView::OptionalAdmin { admin: None, minter } ==> (mint_step(Some(config), sender).1
            == Err::<ResponseView, ErrorKind>(ErrorKind::NotOwner) <==> sender != minter),
        config.policy matches PolicyView::UnrestrictedMinter { minter } ==> (mint_step(Some(config), sender).1 == Err::<
            ResponseView,
            ErrorKind,
        >(ErrorKind::NotOwner) <==> sender != minter),
        sender != config.policy.principal() ==> mint_step(Some(config), sender).0 == Some(config),
        sender == config.policy.principal() ==> mint_step(Some(config), sender) == (
            Some(config.issued()),
            Ok::<ResponseView, ErrorKind>(
                ResponseView {
                    messages: seq![ledger_mint(config.cw721_address->0, next_mint_json(config, sender))],
                    attributes: seq![AttributeView { key: "action"@, value: "mint"@ }],
                },
            ),
        ),
{
}

/// A configuration saved and then loaded is the configuration that was
/// saved, field for field, whatever the store held before.
pub proof fn law_save_then_load(store: ConfigStore, config: Config)
    ensures
        store.saved(config).loaded() == Ok::<Config, crate::error::ContractError>(config),
{
}

} // verus!
