//! Who owns the distributor, and how ownership changes hands.
//!
//! The owner offers ownership to another account, optionally with a deadline;
//! the transfer completes when that account accepts in time. The owner may
//! also renounce ownership for good.

use crate::error::{ContractError, OwnershipError};
use crate::host::{Api, BlockInfo};
use crate::identity::{compare, Order};
use vstd::prelude::*;

verus! {

/// The point at which an offer of ownership lapses.
#[derive(Clone, Copy, Debug, PartialEq, Eq, Structural)]
pub enum Expiration {
    /// Lapses once the block height has reached this height.
    AtHeight(u64),
    /// Lapses once the block time has reached this time, in nanoseconds since
    /// the Unix epoch.
    AtTime(u64),
    /// Never lapses.
    Never,
}

impl Expiration {
    /// The deadline has been reached in `block`.
    pub open spec fn expired(&self, block: BlockInfo) -> bool {
        match *self {
            Expiration::AtHeight(height) => block.height >= height,
            Expiration::AtTime(time) => block.time >= time,
            Expiration::Never => false,
        }
    }

    /// Whether the deadline has been reached in `block`.
    pub fn is_expired(&self, block: &BlockInfo) -> (r: bool)
        ensures
            r == self.expired(*block),
    {
        match *self {
            Expiration::AtHeight(height) => block.height >= height,
            Expiration::AtTime(time) => block.time >= time,
            Expiration::Never => false,
        }
    }
}

/// The owner and the pending offer, if any.
#[derive(Clone, Debug, PartialEq, Eq)]
pub struct Ownership {
    /// The current owner; `None` once ownership has been renounced.
    pub owner: Option<String>,
    /// The account that ownership has been offered to.
    pub pending_owner: Option<String>,
    /// The deadline of the pending offer, if it has one.
    pub pending_expiry: Option<Expiration>,
}

/// The ownership as a mathematical value.
pub struct OwnershipView {
    pub owner: Option<Seq<char>>,
    pub pending_owner: Option<Seq<char>>,
    pub pending_expiry: Option<Expiration>,
}

/// An optional identity as a mathematical value.
pub open spec fn identity_view(identity: Option<String>) -> Option<Seq<char>> {
    match identity {
        Some(i) => Some(i@),
        None => None,
    }
}

impl View for Ownership {
    type V = OwnershipView;

    open spec fn view(&self) -> OwnershipView {
        OwnershipView {
            owner: identity_view(self.owner),
            pending_owner: identity_view(self.pending_owner),
            pending_expiry: self.pending_expiry,
        }
    }
}

/// What can be done to the ownership.
#[derive(Clone, Debug, PartialEq, Eq)]
pub enum Action {
    /// The owner offers ownership to `new_owner`, in place of any earlier
    /// offer.
    TransferOwnership { new_owner: String, expiry: Option<Expiration> },
    /// The account that ownership was offered to accepts it.
    AcceptOwnership,
    /// The owner gives ownership up; any pending offer is dropped.
    RenounceOwnership,
}

/// An action as a mathematical value.
pub enum ActionView {
    TransferOwnership { new_owner: Seq<char>, expiry: Option<Expiration> },
    AcceptOwnership,
    RenounceOwnership,
}

impl View for Action {
    type V = ActionView;

    open spec fn view(&self) -> ActionView {
        match *self {
            Action::TransferOwnership { new_owner, expiry } => ActionView::TransferOwnership {
                new_owner: new_owner@,
                expiry,
            },
            Action::AcceptOwnership => ActionView::AcceptOwnership,
            Action::RenounceOwnership => ActionView::RenounceOwnership,
        }
    }
}

/// The ownership with which the distributor starts.
pub open spec fn initial(owner: Option<Seq<char>>) -> OwnershipView {
    OwnershipView { owner, pending_owner: None, pending_expiry: None }
}

/// `sender` may act as the owner.
pub open spec fn owner_check(ownership: OwnershipView, sender: Seq<char>) -> Result<
    (),
    ContractError,
> {
    match ownership.owner {
        None => Err(ContractError::Unauthorized(OwnershipError::NoOwner)),
        Some(owner) => if owner == sender {
            Ok(())
        } else {
            Err(ContractError::Unauthorized(OwnershipError::NotOwner))
        },
    }
}

/// The ownership after `sender` has offered it to `new_owner`.
pub open spec fn after_transfer(
    ownership: OwnershipView,
    accepted: Set<Seq<char>>,
    sender: Seq<char>,
    new_owner: Seq<char>,
    expiry: Option<Expiration>,
) -> Result<OwnershipView, ContractError> {
    match owner_check(ownership, sender) {
        Err(e) => Err(e),
        Ok(_) => if accepted.contains(new_owner) {
            Ok(
                OwnershipView {
                    owner: ownership.owner,
                    pending_owner: Some(new_owner),
                    pending_expiry: expiry,
                },
            )
        } else {
            Err(ContractError::InvalidPolicy)
        },
    }
}

/// The ownership after `sender` has accepted the pending offer in `block`.
pub open spec fn after_accept(ownership: OwnershipView, block: BlockInfo, sender: Seq<char>) -> Result<
    OwnershipView,
    ContractError,
> {
    match ownership.pending_owner {
        None => Err(ContractError::Unauthorized(OwnershipError::TransferNotFound)),
        Some(pending) => if pending != sender {
            Err(ContractError::Unauthorized(OwnershipError::NotPendingOwner))
        } else if ownership.pending_expiry is Some && ownership.pending_expiry->Some_0.expired(
            block,
        ) {
            Err(ContractError::Unauthorized(OwnershipError::TransferExpired))
        } else {
            Ok(initial(Some(pending)))
        },
    }
}

/// The ownership after `sender` has renounced it.
pub open spec fn after_renounce(ownership: OwnershipView, sender: Seq<char>) -> Result<
    OwnershipView,
    ContractError,
> {
    match owner_check(ownership, sender) {
        Err(e) => Err(e),
        Ok(_) => Ok(initial(None)),
    }
}

/// The ownership after `sender` has taken `action` in `block`, or the reason
/// for which the action is refused.
pub open spec fn after_action(
    ownership: OwnershipView,
    accepted: Set<Seq<char>>,
    block: BlockInfo,
    sender: Seq<char>,
    action: ActionView,
) -> Result<OwnershipView, ContractError> {
    match action {
        ActionView::TransferOwnership { new_owner, expiry } => after_transfer(
            ownership,
            accepted,
            sender,
            new_owner,
            expiry,
        ),
        ActionView::AcceptOwnership => after_accept(ownership, block, sender),
        ActionView::RenounceOwnership => after_renounce(ownership, sender),
    }
}

/// Sets the owner with which the distributor starts. An owner that the host
/// does not accept is refused.
pub fn initialize_owner(api: &Api, owner: Option<&str>) -> (r: Result<Ownership, ContractError>)
    ensures
        match owner {
            Some(o) => if api@.contains(o@) {
                r is Ok && r->Ok_0@ == initial(Some(o@))
            } else {
                r == Err::<Ownership, ContractError>(ContractError::InvalidPolicy)
            },
            None => r is Ok && r->Ok_0@ == initial(None),
        },
{
    match owner {
        Some(o) => {
            if !api.addr_validate(o) {
                return Err(ContractError::InvalidPolicy);
            }
            Ok(Ownership { owner: Some(o.to_owned()), pending_owner: None, pending_expiry: None })
        },
        None => Ok(Ownership { owner: None, pending_owner: None, pending_expiry: None }),
    }
}

/// Whether there is an owner and it is `addr`.
pub fn is_owner(ownership: &Ownership, addr: &str) -> (r: bool)
    ensures
        r == (ownership@.owner == Some(addr@)),
{
    match &ownership.owner {
        Some(owner) => compare(owner.as_str(), addr) == Order::Same,
        None => false,
    }
}

/// Refuses a sender that is not the owner.
pub fn assert_owner(ownership: &Ownership, sender: &str) -> (r: Result<(), ContractError>)
    ensures
        r == owner_check(ownership@, sender@),
{
    match &ownership.owner {
        None => Err(ContractError::Unauthorized(OwnershipError::NoOwner)),
        Some(owner) => {
            if compare(owner.as_str(), sender) == Order::Same {
                Ok(())
            } else {
                Err(ContractError::Unauthorized(OwnershipError::NotOwner))
            }
        },
    }
}

/// Refuses a sender that may not accept the pending offer in `block`.
fn assert_can_accept(ownership: &Ownership, block: &BlockInfo, sender: &str) -> (r: Result<
    (),
    ContractError,
>)
    ensures
        r is Ok <==> after_accept(ownership@, *block, sender@) is Ok,
        r is Err ==> after_accept(ownership@, *block, sender@) == Err::<
            OwnershipView,
            ContractError,
        >(r->Err_0),
{
    match &ownership.pending_owner {
        None => Err(ContractError::Unauthorized(OwnershipError::TransferNotFound)),
        Some(pending) => {
            if compare(pending.as_str(), sender) != Order::Same {
                return Err(ContractError::Unauthorized(OwnershipError::NotPendingOwner));
            }
            match &ownership.pending_expiry {
                Some(expiry) => {
                    if expiry.is_expired(block) {
                        return Err(ContractError::Unauthorized(OwnershipError::TransferExpired));
                    }
                },
                None => {},
            }
            Ok(())
        },
    }
}

/// Applies `action`, taken by `sender` in `block`, to the ownership. A
/// refused action leaves the ownership as it was.
pub fn update_ownership(
    ownership: &mut Ownership,
    api: &Api,
    block: &BlockInfo,
    sender: &str,
    action: Action,
) -> (r: Result<(), ContractError>)
    ensures
        match after_action(old(ownership)@, api@, *block, sender@, action@) {
            Ok(next) => r == Ok::<(), ContractError>(()) && final(ownership)@ == next,
            Err(e) => r == Err::<(), ContractError>(e) && *final(ownership) == *old(ownership),
        },
{
    match action {
        Action::TransferOwnership { new_owner, expiry } => {
            match assert_owner(ownership, sender) {
                Err(e) => {
                    return Err(e);
                },
                Ok(_) => {},
            }
            if !api.addr_validate(new_owner.as_str()) {
                return Err(ContractError::InvalidPolicy);
            }
            ownership.pending_owner = Some(new_owner);
            ownership.pending_expiry = expiry;
            Ok(())
        },
        Action::AcceptOwnership => {
            match assert_can_accept(ownership, block, sender) {
                Err(e) => {
                    return Err(e);
                },
                Ok(_) => {},
            }
            ownership.owner = Some(sender.to_owned());
            ownership.pending_owner = None;
            ownership.pending_expiry = None;
            Ok(())
        },
        Action::RenounceOwnership => {
            match assert_owner(ownership, sender) {
                Err(e) => {
                    return Err(e);
                },
                Ok(_) => {},
            }
            ownership.owner = None;
            ownership.pending_owner = None;
            ownership.pending_expiry = None;
            Ok(())
        },
    }
}

/// An offer of ownership can be taken up by the account it was made to, and
/// by no other: after the owner `x` has offered ownership to `y`, an accept
/// by any other account `z` is refused and changes nothing, while an accept
/// by `y` before the deadline makes `y` the owner, after which `x` is refused
/// as owner.
pub proof fn lemma_offer_and_accept(
    ownership: OwnershipView,
    accepted: Set<Seq<char>>,
    x: Seq<char>,
    y: Seq<char>,
    z: Seq<char>,
    expiry: Option<Expiration>,
    block: BlockInfo,
)
    requires
        ownership.owner == Some(x),
        accepted.contains(y),
        z != y,
        x != y,
    ensures
        after_transfer(ownership, accepted, x, y, expiry) is Ok,
        ({
            let offered = after_transfer(ownership, accepted, x, y, expiry)->Ok_0;
            &&& offered.owner == Some(x)
            &&& after_accept(offered, block, z) == Err::<OwnershipView, ContractError>(
                ContractError::Unauthorized(OwnershipError::NotPendingOwner),
            )
            &&& !(expiry is Some && expiry->Some_0.expired(block)) ==> {
                &&& after_accept(offered, block, y) == Ok::<OwnershipView, ContractError>(
                    initial(Some(y)),
                )
                &&& owner_check(initial(Some(y)), x) == Err::<(), ContractError>(
                    ContractError::Unauthorized(OwnershipError::NotOwner),
                )
                &&& owner_check(initial(Some(y)), y) == Ok::<(), ContractError>(())
            }
        }),
{
}

} // verus!
