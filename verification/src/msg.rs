//! The requests the engine answers and the views it reports.

use vstd::prelude::*;

use crate::state::{clone_opt_string, GenericBalance, GenericBalanceV, OrderV};

verus! {

/// Setting the engine up takes no parameters.
#[derive(Debug, PartialEq)]
pub struct InstantiateMsg {}

/// Abstract value of an [`OpenOrderMsg`].
#[verifier::ext_equal]
pub struct OpenOrderMsgV {
    pub taker_token: GenericBalanceV,
    pub target_address: Option<Seq<char>>,
}

/// An open request: the balance a taker must deposit to close the order,
/// and, optionally, the only address allowed to do so.
#[derive(Debug, PartialEq)]
pub struct OpenOrderMsg {
    pub taker_token: GenericBalance,
    pub target_address: Option<String>,
}

impl View for OpenOrderMsg {
    type V = OpenOrderMsgV;

    open spec fn view(&self) -> OpenOrderMsgV {
        OpenOrderMsgV {
            taker_token: self.taker_token@,
            target_address: self.target_address.deep_view(),
        }
    }
}

impl DeepView for OpenOrderMsg {
    type V = OpenOrderMsgV;

    open spec fn deep_view(&self) -> OpenOrderMsgV {
        self@
    }
}

impl Clone for OpenOrderMsg {
    fn clone(&self) -> (res: Self)
        ensures
            res@ == self@,
    {
        OpenOrderMsg {
            taker_token: self.taker_token.clone(),
            target_address: clone_opt_string(&self.target_address),
        }
    }
}

/// A read-only query.
#[derive(Debug, PartialEq)]
pub enum QueryMsg {
    Order { id: u64 },
}

/// The instruction a token contract forwards along with the tokens it
/// reports received: open an order with the deposit, or close one.
#[derive(Debug, PartialEq)]
pub enum ReceiveMsg {
    OpenOrder(OpenOrderMsg),
    CloseOrder { order_id: u64 },
}

/// A read-only projection of one order's public fields.
#[derive(Debug, PartialEq)]
pub struct OrderResponse {
    pub maker_address: String,
    pub maker_token: GenericBalance,
    pub taker_token: GenericBalance,
    pub target_address: Option<String>,
    pub is_open: bool,
}

impl View for OrderResponse {
    type V = OrderV;

    open spec fn view(&self) -> OrderV {
        OrderV {
            maker_address: self.maker_address@,
            maker_token: self.maker_token@,
            taker_token: self.taker_token@,
            target_address: self.target_address.deep_view(),
            is_open: self.is_open,
        }
    }
}

impl DeepView for OrderResponse {
    type V = OrderV;

    open spec fn deep_view(&self) -> OrderV {
        self@
    }
}

} // verus!
