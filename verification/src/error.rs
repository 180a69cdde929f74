//! The errors an order operation can end with.

use vstd::prelude::*;

verus! {

/// Why an open or close operation was refused.
///
/// Every error is terminal for the call that raised it: the store is left
/// exactly as it was.
#[derive(Debug, PartialEq)]
pub enum ContractError {
    /// An order was opened with nothing deposited.
    EmptyBalance {},
    /// The open request's taker description is malformed; the string gives
    /// the detail. Callers need not distinguish the sub-reasons.
    OrderInvalid(String),
    /// A close or query referenced an identifier no order was filed under.
    OrderNotFound {},
    /// The order was already closed.
    OrderClosed {},
    /// The order is reserved for a different taker address.
    OrderReserved {},
    /// The deposited balance does not exactly match the taker requirement.
    OrderUnmatched {},
}

/// The abstract value of a [`ContractError`]: its kind, without the free-form
/// detail string that `OrderInvalid` carries.
pub enum ErrorKindV {
    EmptyBalance,
    OrderInvalid,
    OrderNotFound,
    OrderClosed,
    OrderReserved,
    OrderUnmatched,
}

impl View for ContractError {
    type V = ErrorKindV;

    open spec fn view(&self) -> ErrorKindV {
        match self {
            ContractError::EmptyBalance {} => ErrorKindV::EmptyBalance,
            ContractError::OrderInvalid(_) => ErrorKindV::OrderInvalid,
            ContractError::OrderNotFound {} => ErrorKindV::OrderNotFound,
            ContractError::OrderClosed {} => ErrorKindV::OrderClosed,
            ContractError::OrderReserved {} => ErrorKindV::OrderReserved,
            ContractError::OrderUnmatched {} => ErrorKindV::OrderUnmatched,
        }
    }
}

} // verus!
