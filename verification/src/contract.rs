//! The order lifecycle: validating and filing open requests, settling close
//! requests, and building the settlement transfers.

use vstd::prelude::*;
use vstd::string::StringExecFns;

use crate::error::{ContractError, ErrorKindV};
use crate::msg::{OpenOrderMsg, OpenOrderMsgV, OrderResponse};
use crate::state::{
    add_tokens_ok, balance_is_empty, balance_set_eq, balance_wf, clone_opt_string, empty_balance,
    lemma_add_tokens_preserves_wf, next_id, spec_add_tokens, store_wf, Balance, BalanceV, EntryV,
    GenericBalance, GenericBalanceV, Order, OrderStore, OrderStoreV, OrderV,
};

verus! {

// ---------------------------------------------------------------------------
// Settlement transfers
// ---------------------------------------------------------------------------

/// Abstract value of a [`TransferInstruction`].
pub enum TransferV {
    Native { to_address: Seq<char>, denom: Seq<char>, amount: nat },
    Cw20 { contract_addr: Seq<char>, recipient: Seq<char>, amount: nat },
}

/// One outbound settlement instruction: pay a native amount of a
/// denomination to an address, or invoke a token contract to transfer an
/// amount to an address.
#[derive(Debug, PartialEq)]
pub enum TransferInstruction {
    Native { to_address: String, denom: String, amount: u128 },
    Cw20 { contract_addr: String, recipient: String, amount: u128 },
}

impl View for TransferInstruction {
    type V = TransferV;

    open spec fn view(&self) -> TransferV {
        match self {
            TransferInstruction::Native { to_address, denom, amount } => TransferV::Native {
                to_address: to_address@,
                denom: denom@,
                amount: *amount as nat,
            },
            TransferInstruction::Cw20 { contract_addr, recipient, amount } => TransferV::Cw20 {
                contract_addr: contract_addr@,
                recipient: recipient@,
                amount: *amount as nat,
            },
        }
    }
}

impl DeepView for TransferInstruction {
    type V = TransferV;

    open spec fn deep_view(&self) -> TransferV {
        self@
    }
}

/// The native payment settling one native entry.
pub open spec fn native_transfer(to: Seq<char>, e: EntryV) -> TransferV {
    TransferV::Native { to_address: to, denom: e.key, amount: e.amount }
}

/// The token-contract invocation settling one contract-token entry.
pub open spec fn cw20_transfer(to: Seq<char>, e: EntryV) -> TransferV {
    TransferV::Cw20 { contract_addr: e.key, recipient: to, amount: e.amount }
}

/// The native payments settling a sequence of native entries, in order.
pub open spec fn native_transfers(to: Seq<char>, s: Seq<EntryV>) -> Seq<TransferV> {
    Seq::new(s.len(), |i: int| native_transfer(to, s[i]))
}

/// The token-contract invocations settling a sequence of contract-token
/// entries, in order.
pub open spec fn cw20_transfers(to: Seq<char>, s: Seq<EntryV>) -> Seq<TransferV> {
    Seq::new(s.len(), |i: int| cw20_transfer(to, s[i]))
}

/// Indexing [`native_transfers`].
pub proof fn lemma_native_transfers_index(to: Seq<char>, s: Seq<EntryV>, j: int)
    requires
        0 <= j < s.len(),
    ensures
        native_transfers(to, s).len() == s.len(),
        native_transfers(to, s)[j] == native_transfer(to, s[j]),
{
}

/// Indexing [`cw20_transfers`].
pub proof fn lemma_cw20_transfers_index(to: Seq<char>, s: Seq<EntryV>, j: int)
    requires
        0 <= j < s.len(),
    ensures
        cw20_transfers(to, s).len() == s.len(),
        cw20_transfers(to, s)[j] == cw20_transfer(to, s[j]),
{
}

/// The instructions that route a balance to a recipient: one native payment
/// per native entry, then one token-contract invocation per contract-token
/// entry, in the balance's insertion order.
pub open spec fn transfers_for(to: Seq<char>, g: GenericBalanceV) -> Seq<TransferV> {
    native_transfers(to, g.native) + cw20_transfers(to, g.cw20)
}

/// Build the settlement instructions that move `balance` to `to`: a native
/// payment for each native entry, then a token transfer for each
/// contract-token entry, deterministically in stored order.
pub fn send_tokens(to: &String, balance: &GenericBalance) -> (msgs: Vec<TransferInstruction>)
    ensures
        msgs.deep_view() == transfers_for(to@, balance@),
{
    let ghost g = balance@;
    let mut msgs: Vec<TransferInstruction> = Vec::new();
    let mut i: usize = 0;
    while i < balance.native.len()
        invariant
            i <= balance.native.len(),
            g == balance@,
            msgs.deep_view() == native_transfers(to@, g.native.take(i as int)),
        decreases balance.native.len() - i,
    {
        let ghost prevv = msgs@;
        let ghost prevdv = msgs.deep_view();
        msgs.push(
            TransferInstruction::Native {
                to_address: to.clone(),
                denom: balance.native[i].denom.clone(),
                amount: balance.native[i].amount,
            },
        );
        proof {
            assert forall|j: int| 0 <= j < prevv.len() implies msgs.deep_view()[j] == prevdv[j] by {
                assert(msgs.deep_view()[j] == msgs@[j].deep_view());
                assert(msgs@[j] == prevv[j]);
                assert(prevdv[j] == prevv[j].deep_view());
            }
            assert(prevdv.len() == i as int);
            assert(prevv.len() == i as int);
            assert(msgs@.len() == i + 1);
            assert(g.native[i as int] == balance.native@[i as int]@);
            assert(msgs.deep_view()[i as int] == msgs@[i as int]@);
            assert(msgs@[i as int]@ == native_transfer(to@, g.native[i as int]));
            let ghost taken = g.native.take(i as int + 1);
            assert forall|j: int| 0 <= j < i as int + 1 implies msgs.deep_view()[j]
                == native_transfers(to@, taken)[j] by {
                lemma_native_transfers_index(to@, taken, j);
                assert(taken[j] == g.native[j]);
                if j < i as int {
                    lemma_native_transfers_index(to@, g.native.take(i as int), j);
                    assert(msgs.deep_view()[j] == prevdv[j]);
                    assert(g.native.take(i as int)[j] == g.native[j]);
                }
            }
            assert(msgs.deep_view() =~= native_transfers(to@, taken));
        }
        i = i + 1;
    }
    proof {
        assert(g.native.take(balance.native.len() as int) =~= g.native);
    }
    let ghost native_part = native_transfers(to@, g.native);
    let mut k: usize = 0;
    while k < balance.cw20.len()
        invariant
            k <= balance.cw20.len(),
            g == balance@,
            native_part == native_transfers(to@, g.native),
            msgs.deep_view() == native_part + cw20_transfers(to@, g.cw20.take(k as int)),
        decreases balance.cw20.len() - k,
    {
        let ghost prevv = msgs@;
        let ghost prevdv = msgs.deep_view();
        msgs.push(
            TransferInstruction::Cw20 {
                contract_addr: balance.cw20[k].address.clone(),
                recipient: to.clone(),
                amount: balance.cw20[k].amount,
            },
        );
        proof {
            assert forall|j: int| 0 <= j < prevv.len() implies msgs.deep_view()[j] == prevdv[j] by {
                assert(msgs.deep_view()[j] == msgs@[j].deep_view());
                assert(msgs@[j] == prevv[j]);
                assert(prevdv[j] == prevv[j].deep_view());
            }
            assert(prevdv.len() == native_part.len() + k as int);
            assert(prevv.len() == prevdv.len());
            assert(msgs@.len() == prevv.len() + 1);
            assert(g.cw20[k as int] == balance.cw20@[k as int]@);
            assert(msgs.deep_view()[prevv.len() as int] == msgs@[prevv.len() as int]@);
            assert(msgs@[prevv.len() as int]@ == cw20_transfer(to@, g.cw20[k as int]));
            let ghost taken = g.cw20.take(k as int + 1);
            let ghost rhs = native_part + cw20_transfers(to@, taken);
            assert forall|j: int| 0 <= j < msgs@.len() implies msgs.deep_view()[j] == rhs[j] by {
                lemma_cw20_transfers_index(to@, taken, 0);
                if j < native_part.len() {
                    assert(msgs.deep_view()[j] == prevdv[j]);
                    assert(rhs[j] == native_part[j]);
                    assert(prevdv[j] == (native_part + cw20_transfers(to@, g.cw20.take(k as int)))[j]);
                } else {
                    let n: int = j - native_part.len();
                    lemma_cw20_transfers_index(to@, taken, n);
                    assert(rhs[j] == cw20_transfer(to@, taken[n]));
                    assert(taken[n] == g.cw20[n]);
                    if n < k as int {
                        lemma_cw20_transfers_index(to@, g.cw20.take(k as int), n);
                        assert(msgs.deep_view()[j] == prevdv[j]);
                        assert(prevdv[j] == (native_part + cw20_transfers(to@, g.cw20.take(k as int)))[j]);
                        assert(g.cw20.take(k as int)[n] == g.cw20[n]);
                    }
                }
            }
            assert(msgs.deep_view() =~= rhs);
        }
        k = k + 1;
    }
    proof {
        assert(g.cw20.take(balance.cw20.len() as int) =~= g.cw20);
        assert(msgs.deep_view() =~= transfers_for(to@, g));
    }
    msgs
}

// ---------------------------------------------------------------------------
// Opening an order
// ---------------------------------------------------------------------------

/// The deposit normalized into a holding of its single asset kind.
pub open spec fn spec_normalize(b: BalanceV) -> GenericBalanceV {
    spec_add_tokens(empty_balance(), b)
}

/// Normalizing the deposit keeps every amount in the unsigned 128-bit range.
pub open spec fn normalize_ok(b: BalanceV) -> bool {
    add_tokens_ok(empty_balance(), b)
}

/// A normalized deposit satisfies the balance invariant: keys unique
/// within each sequence, every amount positive. An order's maker balance is
/// a normalized deposit, so every filed maker balance satisfies it too.
pub proof fn lemma_normalized_deposit_well_formed(b: BalanceV)
    ensures
        balance_wf(spec_normalize(b)),
{
    lemma_add_tokens_preserves_wf(empty_balance(), b);
}

/// The taker requirement names exactly one asset kind: at least one native
/// denomination and no contract token, or no native denomination and exactly
/// one contract token.
pub open spec fn taker_shape_ok(t: GenericBalanceV) -> bool {
    ||| (t.native.len() > 0 && t.cw20.len() == 0)
    ||| (t.native.len() == 0 && t.cw20.len() == 1)
}

/// The two sides of the swap are different assets: a native deposit may not
/// ask for native assets back, and a contract-token deposit may not ask for
/// the same token contract.
pub open spec fn open_kind_ok(b: BalanceV, t: GenericBalanceV) -> bool {
    match b {
        BalanceV::Native(_) => t.native.len() == 0,
        BalanceV::Cw20(e) => t.cw20.len() > 0 ==> t.cw20[0].key != e.key,
    }
}

/// An open request is accepted exactly when the deposit holds something and
/// the taker requirement is well-shaped and of the opposite asset.
pub open spec fn open_ok(b: BalanceV, t: GenericBalanceV) -> bool {
    &&& !balance_is_empty(spec_normalize(b))
    &&& taker_shape_ok(t)
    &&& open_kind_ok(b, t)
}

/// Which error a refused open request ends with: an empty deposit is
/// reported first, any malformed taker requirement after it.
pub open spec fn open_err_kind(b: BalanceV, t: GenericBalanceV) -> ErrorKindV {
    if balance_is_empty(spec_normalize(b)) {
        ErrorKindV::EmptyBalance
    } else {
        ErrorKindV::OrderInvalid
    }
}

/// The order a successful open files: the normalized deposit under the
/// sender's address, the taker requirement and target exactly as requested,
/// and the open flag set.
pub open spec fn new_order_v(b: BalanceV, sender: Seq<char>, msg: OpenOrderMsgV) -> OrderV {
    OrderV {
        maker_address: sender,
        maker_token: spec_normalize(b),
        taker_token: msg.taker_token,
        target_address: msg.target_address,
        is_open: true,
    }
}

/// The store after a successful open: the counter one higher, the new order
/// appended under the issued identifier.
pub open spec fn open_store_v(
    s: OrderStoreV,
    b: BalanceV,
    sender: Seq<char>,
    msg: OpenOrderMsgV,
) -> OrderStoreV {
    OrderStoreV { order_count: s.order_count + 1, orders: s.orders.push(new_order_v(b, sender, msg)) }
}

/// Open an order: validate the deposit and the taker requirement, and on
/// success file the order under the next identifier and return that
/// identifier. On failure the store is left exactly as it was.
pub fn execute_open_order(
    store: &mut OrderStore,
    balance: Balance,
    sender: &String,
    message: OpenOrderMsg,
) -> (r: Result<u64, ContractError>)
    requires
        store_wf(old(store)@),
        old(store).order_count < u64::MAX,
        normalize_ok(balance@),
    ensures
        store_wf(final(store)@),
        match r {
            Ok(id) => {
                &&& open_ok(balance@, message.taker_token@)
                &&& id as nat == old(store)@.order_count + 1
                &&& final(store)@ == open_store_v(old(store)@, balance@, sender@, message@)
            },
            Err(e) => {
                &&& !open_ok(balance@, message.taker_token@)
                &&& e@ == open_err_kind(balance@, message.taker_token@)
                &&& final(store)@ == old(store)@
            },
        },
{
    let ghost s0 = store@;
    let ghost bv = balance@;
    let ghost tv = message.taker_token@;
    let kind_is_native: bool = match &balance {
        Balance::Native(_) => true,
        Balance::Cw20(_) => false,
    };
    let maker_cw20_address: Option<String> = match &balance {
        Balance::Cw20(token) => Some(token.address.clone()),
        Balance::Native(_) => None,
    };
    let mut deposit = GenericBalance { native: Vec::new(), cw20: Vec::new() };
    proof {
        assert(deposit@ =~= empty_balance());
    }
    deposit.add_tokens(balance);
    if deposit.is_empty() {
        return Err(ContractError::EmptyBalance {});
    }
    if message.taker_token.native.len() == 0 && message.taker_token.cw20.len() == 0 {
        return Err(
            ContractError::OrderInvalid(
                String::from_str("At least one native/cw20 token should be specified as a taker."),
            ),
        );
    } else if message.taker_token.native.len() == 0 && message.taker_token.cw20.len() > 1 {
        return Err(
            ContractError::OrderInvalid(
                String::from_str("Only one cw20 token can be specified as a taker."),
            ),
        );
    } else if message.taker_token.native.len() > 0 && message.taker_token.cw20.len() > 0 {
        return Err(
            ContractError::OrderInvalid(
                String::from_str("Only one native or cw20 token can be specified as a taker."),
            ),
        );
    }
    if kind_is_native {
        if message.taker_token.native.len() > 0 {
            return Err(
                ContractError::OrderInvalid(
                    String::from_str("Maker and taker tokens cannot both be native tokens."),
                ),
            );
        }
    } else {
        match &maker_cw20_address {
            Some(address) => {
                if message.taker_token.cw20.len() > 0 && message.taker_token.cw20[0].address
                    == *address {
                    proof {
                        assert(tv.cw20[0] == message.taker_token.cw20@[0]@);
                    }
                    return Err(
                        ContractError::OrderInvalid(
                            String::from_str(
                                "Maker and taker tokens cannot be the same cw20 tokens.",
                            ),
                        ),
                    );
                }
            },
            None => {},
        }
    }
    proof {
        if tv.cw20.len() > 0 {
            assert(tv.cw20[0] == message.taker_token.cw20@[0]@);
        }
        assert(open_ok(bv, tv));
    }
    let order = Order {
        maker_address: sender.clone(),
        maker_token: deposit,
        taker_token: message.taker_token,
        target_address: message.target_address,
        is_open: true,
    };
    let id = next_id(store);
    store.orders.push(order);
    proof {
        assert(store@.orders =~= s0.orders.push(new_order_v(bv, sender@, message@)));
        assert(store@ =~= open_store_v(s0, bv, sender@, message@));
    }
    Ok(id)
}

// ---------------------------------------------------------------------------
// Closing an order
// ---------------------------------------------------------------------------

/// Some order is filed under this identifier.
pub open spec fn order_exists(s: OrderStoreV, id: u64) -> bool {
    1 <= id && id <= s.orders.len()
}

/// If the order reserves a target address, the sender must be it.
pub open spec fn close_target_ok(o: OrderV, sender: Seq<char>) -> bool {
    o.target_address matches Some(t) ==> sender == t
}

/// A close request is accepted exactly when the order exists, is still
/// open, is not reserved for someone else, and the normalized deposit
/// equals the taker requirement as a set.
pub open spec fn close_ok(s: OrderStoreV, b: BalanceV, sender: Seq<char>, id: u64) -> bool {
    &&& order_exists(s, id)
    &&& s.orders[id - 1].is_open
    &&& close_target_ok(s.orders[id - 1], sender)
    &&& balance_set_eq(spec_normalize(b), s.orders[id - 1].taker_token)
}

/// Which error a refused close request ends with, checked in this order:
/// unknown identifier, already closed, reserved for another address,
/// deposit not matching.
pub open spec fn close_err_kind(s: OrderStoreV, b: BalanceV, sender: Seq<char>, id: u64) -> ErrorKindV {
    if !order_exists(s, id) {
        ErrorKindV::OrderNotFound
    } else if !s.orders[id - 1].is_open {
        ErrorKindV::OrderClosed
    } else if !close_target_ok(s.orders[id - 1], sender) {
        ErrorKindV::OrderReserved
    } else {
        ErrorKindV::OrderUnmatched
    }
}

/// The same order with the open flag cleared; every other field kept.
pub open spec fn closed_order(o: OrderV) -> OrderV {
    OrderV {
        maker_address: o.maker_address,
        maker_token: o.maker_token,
        taker_token: o.taker_token,
        target_address: o.target_address,
        is_open: false,
    }
}

/// The store after a successful close: the one order flipped to closed, the
/// counter and every other order untouched.
pub open spec fn close_store_v(s: OrderStoreV, id: u64) -> OrderStoreV {
    OrderStoreV {
        order_count: s.order_count,
        orders: s.orders.update(id - 1, closed_order(s.orders[id - 1])),
    }
}

/// The settlement of a successful close: the taker's deposit routed to the
/// maker, followed by the maker's original deposit routed to the sender.
pub open spec fn close_transfers_v(
    s: OrderStoreV,
    b: BalanceV,
    sender: Seq<char>,
    id: u64,
) -> Seq<TransferV> {
    transfers_for(s.orders[id - 1].maker_address, spec_normalize(b)) + transfers_for(
        sender,
        s.orders[id - 1].maker_token,
    )
}

/// Close an order: check identifier, open flag, reservation and the exact
/// match of the deposit against the taker requirement; on success mark the
/// order closed and return the two parties' settlement transfers. On
/// failure the store is left exactly as it was.
pub fn execute_close_order(
    store: &mut OrderStore,
    balance: Balance,
    taker_address: &String,
    order_id: u64,
) -> (r: Result<Vec<TransferInstruction>, ContractError>)
    requires
        store_wf(old(store)@),
        normalize_ok(balance@),
    ensures
        store_wf(final(store)@),
        match r {
            Ok(transfers) => {
                &&& close_ok(old(store)@, balance@, taker_address@, order_id)
                &&& final(store)@ == close_store_v(old(store)@, order_id)
                &&& transfers.deep_view() == close_transfers_v(
                    old(store)@,
                    balance@,
                    taker_address@,
                    order_id,
                )
            },
            Err(e) => {
                &&& !close_ok(old(store)@, balance@, taker_address@, order_id)
                &&& e@ == close_err_kind(old(store)@, balance@, taker_address@, order_id)
                &&& final(store)@ == old(store)@
            },
        },
{
    let ghost s0 = store@;
    let ghost bv = balance@;
    if order_id == 0 || order_id > store.orders.len() as u64 {
        return Err(ContractError::OrderNotFound {});
    }
    assert(1 <= order_id && order_id <= s0.orders.len());
    let idx: usize = (order_id - 1) as usize;
    if !store.orders[idx].is_open {
        return Err(ContractError::OrderClosed {});
    }
    let reserved: bool = match &store.orders[idx].target_address {
        Some(target) => !(*taker_address == *target),
        None => false,
    };
    if reserved {
        return Err(ContractError::OrderReserved {});
    }
    let mut deposit = GenericBalance { native: Vec::new(), cw20: Vec::new() };
    proof {
        assert(deposit@ =~= empty_balance());
    }
    deposit.add_tokens(balance);
    if !deposit.set_equals(&store.orders[idx].taker_token) {
        return Err(ContractError::OrderUnmatched {});
    }
    let mut msgs = send_tokens(&store.orders[idx].maker_address, &deposit);
    let mut taker_msgs = send_tokens(taker_address, &store.orders[idx].maker_token);
    let mut closed = store.orders[idx].clone();
    closed.is_open = false;
    store.orders[idx] = closed;
    msgs.append(&mut taker_msgs);
    proof {
        assert(store@.orders =~= s0.orders.update(order_id - 1, closed_order(s0.orders[order_id - 1])));
        assert(store@ =~= close_store_v(s0, order_id));
        assert(msgs.deep_view() =~= close_transfers_v(s0, bv, taker_address@, order_id));
    }
    Ok(msgs)
}

// ---------------------------------------------------------------------------
// Querying an order
// ---------------------------------------------------------------------------

/// Report an order's public fields, exactly as stored.
pub fn query_order(store: &OrderStore, id: u64) -> (r: Result<OrderResponse, ContractError>)
    ensures
        match r {
            Ok(resp) => order_exists(store@, id) && resp@ == store@.orders[id - 1],
            Err(e) => !order_exists(store@, id) && e@ is OrderNotFound,
        },
{
    if id == 0 || id > store.orders.len() as u64 {
        return Err(ContractError::OrderNotFound {});
    }
    let idx: usize = (id - 1) as usize;
    let order = &store.orders[idx];
    let resp = OrderResponse {
        maker_address: order.maker_address.clone(),
        maker_token: order.maker_token.clone(),
        taker_token: order.taker_token.clone(),
        target_address: clone_opt_string(&order.target_address),
        is_open: order.is_open,
    };
    proof {
        assert(resp@ =~= store@.orders[id - 1]);
    }
    Ok(resp)
}

// ---------------------------------------------------------------------------
// Laws of the lifecycle
// ---------------------------------------------------------------------------

/// A successful open returns identifier `order_count + 1`. Since the counter
/// starts at zero, is bumped by exactly one on each successful open, is left
/// untouched by every failed request and by every close, the identifier
/// equals the count of previously successful opens plus one, and identifiers
/// strictly increase across successive opens regardless of intervening
/// closes.
pub proof fn lemma_order_ids_strictly_increase(
    s: OrderStoreV,
    b1: BalanceV,
    a1: Seq<char>,
    m1: OpenOrderMsgV,
    cid: u64,
    b2: BalanceV,
    a2: Seq<char>,
    m2: OpenOrderMsgV,
)
    ensures
        ({
            let s1 = open_store_v(s, b1, a1, m1);
            let s2 = close_store_v(s1, cid);
            let id1: nat = s.order_count + 1;
            let id2: nat = s2.order_count + 1;
            &&& s1.order_count == id1
            &&& s2.order_count == s1.order_count
            &&& id2 == id1 + 1
            &&& open_store_v(s2, b2, a2, m2).order_count == id2
        }),
{
}

/// Opening with an empty deposit always fails with `EmptyBalance`, whatever
/// the taker requirement; by `execute_open_order`'s contract the store, and
/// so the identifier counter, is unchanged: no identifier is consumed.
pub proof fn lemma_open_empty_deposit_fails(b: BalanceV, t: GenericBalanceV)
    requires
        balance_is_empty(spec_normalize(b)),
    ensures
        !open_ok(b, t),
        open_err_kind(b, t) is EmptyBalance,
{
}

/// Opening with a taker requirement naming zero asset kinds, more than one
/// contract-token kind, or both asset kinds at once fails with
/// `OrderInvalid`; by `execute_open_order`'s contract the store is
/// unchanged: no identifier is consumed.
pub proof fn lemma_open_invalid_taker_fails(b: BalanceV, t: GenericBalanceV)
    requires
        !balance_is_empty(spec_normalize(b)),
        !taker_shape_ok(t),
    ensures
        !open_ok(b, t),
        open_err_kind(b, t) is OrderInvalid,
{
}

/// Closing an order twice: after a successful close, any second close of
/// the same identifier fails with `OrderClosed`, whatever its deposit and
/// sender.
pub proof fn lemma_close_twice_fails(
    s: OrderStoreV,
    b: BalanceV,
    a: Seq<char>,
    id: u64,
    b2: BalanceV,
    a2: Seq<char>,
)
    requires
        close_ok(s, b, a, id),
    ensures
        !close_ok(close_store_v(s, id), b2, a2, id),
        close_err_kind(close_store_v(s, id), b2, a2, id) is OrderClosed,
{
}

/// Closing an open, unreserved-or-properly-addressed order with a deposit
/// not exactly equal, as a set, to the stored taker requirement fails with
/// `OrderUnmatched`: any difference, overpayment and underpayment alike,
/// falsifies the set equality.
pub proof fn lemma_close_unmatched_fails(s: OrderStoreV, b: BalanceV, a: Seq<char>, id: u64)
    requires
        order_exists(s, id),
        s.orders[id - 1].is_open,
        close_target_ok(s.orders[id - 1], a),
        !balance_set_eq(spec_normalize(b), s.orders[id - 1].taker_token),
    ensures
        !close_ok(s, b, a, id),
        close_err_kind(s, b, a, id) is OrderUnmatched,
{
}

/// If an order carries a target address, a close from any other address
/// fails with `OrderReserved`, and a close from exactly that address with a
/// matching deposit succeeds.
pub proof fn lemma_close_respects_target(
    s: OrderStoreV,
    b: BalanceV,
    a: Seq<char>,
    id: u64,
    t: Seq<char>,
)
    requires
        order_exists(s, id),
        s.orders[id - 1].is_open,
        s.orders[id - 1].target_address == Some(t),
    ensures
        a != t ==> !close_ok(s, b, a, id) && close_err_kind(s, b, a, id) is OrderReserved,
        a == t && balance_set_eq(spec_normalize(b), s.orders[id - 1].taker_token) ==> close_ok(
            s,
            b,
            a,
            id,
        ),
{
}

/// A successful close flips exactly one order to closed and nothing else:
/// its maker address, maker balance, taker requirement and target are as
/// they were at open time, every other order is untouched, and the count of
/// orders is unchanged. With `query_order`'s contract, a query after the
/// close therefore reports the order closed with its balances intact.
pub proof fn lemma_close_preserves_order_data(s: OrderStoreV, id: u64)
    requires
        order_exists(s, id),
    ensures
        ({
            let s2 = close_store_v(s, id);
            &&& s2.orders.len() == s.orders.len()
            &&& s2.order_count == s.order_count
            &&& s2.orders[id - 1].is_open == false
            &&& s2.orders[id - 1].maker_address == s.orders[id - 1].maker_address
            &&& s2.orders[id - 1].maker_token == s.orders[id - 1].maker_token
            &&& s2.orders[id - 1].taker_token == s.orders[id - 1].taker_token
            &&& s2.orders[id - 1].target_address == s.orders[id - 1].target_address
            &&& forall|j: int|
                0 <= j < s.orders.len() && j != id - 1 ==> s2.orders[j] == s.orders[j]
        }),
{
}

} // verus!
