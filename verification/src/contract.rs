//! The dispatcher: routes each request to the admin registry, the broker
//! registry, or the offer ledger, and reports the outcome as an event.

use vstd::prelude::*;

use crate::error::ContractError;
use crate::msg::{ExecEvent, ExecuteMsg, InstantiateMsg, PropertyResponse, QueryMsg};
use crate::state::{Property, PropertyView, State, Store};

verus! {

/// Bootstraps a fresh registry with `sender` as its administrator: the
/// broker set starts empty and the ledger holds no offers.
///
/// The seed carried by the message is reported back by the surrounding
/// environment; the counter itself starts at zero (see
/// [`InstantiateMsg`]).
pub fn instantiate(sender: String, _msg: &InstantiateMsg) -> (s: Store)
    ensures
        s.wf(),
        s.spec_admin() == Some(sender@),
        s.spec_brokers() == Seq::<Seq<char>>::empty(),
        s.spec_count() == 0,
        s.spec_offers() == Seq::<PropertyView>::empty(),
{
    let s = Store {
        admin: Some(sender),
        brokers: Vec::new(),
        state: State { count: 0 },
        properties: Vec::new(),
    };
    proof {
        assert(s.spec_brokers() =~= Seq::<Seq<char>>::empty());
        assert(s.spec_offers() =~= Seq::<PropertyView>::empty());
    }
    s
}

/// The liveness check: acknowledges the request and leaves the registry
/// unchanged, so the offer counter keeps matching the ledger exactly —
/// identifiers are handed out only by offer creation.
pub fn try_increment(store: &mut Store) -> (r: Result<ExecEvent, ContractError>)
    ensures
        r matches Ok(ev) && ev is Incremented,
        *final(store) == *old(store),
{
    Ok(ExecEvent::Incremented {})
}

/// Appends `address` to the broker set on behalf of `sender` and reports
/// the new broker in the returned event.
///
/// `address_valid` carries the external identity validator's verdict on
/// `address`. The checks run in order — administrator, validity, duplicate
/// — and the first failure leaves the store untouched.
pub fn try_make_broker(
    store: &mut Store,
    sender: &String,
    address: String,
    address_valid: bool,
) -> (r: Result<ExecEvent, ContractError>)
    requires
        old(store).wf(),
    ensures
        final(store).wf(),
        !old(store).spec_is_admin(sender@) ==> (r matches Err(e) && e is Unauthorized)
            && *final(store) == *old(store),
        old(store).spec_is_admin(sender@) && !address_valid ==> (r matches Err(e)
            && e is InvalidIdentity) && *final(store) == *old(store),
        old(store).spec_is_admin(sender@) && address_valid && old(store).spec_is_broker(address@)
            ==> (r matches Err(e) && e is AlreadyBroker) && *final(store) == *old(store),
        old(store).spec_is_admin(sender@) && address_valid && !old(store).spec_is_broker(address@)
            ==> ({
            &&& r matches Ok(ev) && ev matches ExecEvent::BrokerAdded { broker } && broker@
                == address@
            &&& final(store).spec_brokers() == old(store).spec_brokers().push(address@)
            &&& final(store).admin == old(store).admin
            &&& final(store).state == old(store).state
            &&& final(store).properties == old(store).properties
        }),
{
    let new_broker = address.clone();
    match store.add_broker(sender, address, address_valid) {
        Ok(_) => Ok(ExecEvent::BrokerAdded { broker: new_broker }),
        Err(e) => Err(e),
    }
}

/// Records a new offer on behalf of `sender`, who must be a broker, and
/// reports the assigned identifier — `count + 1` — in the returned event.
/// A non-broker caller gets `NotBroker` and the store is untouched.
pub fn try_make_offer(store: &mut Store, sender: &String, property: Property) -> (r: Result<
    ExecEvent,
    ContractError,
>)
    requires
        old(store).wf(),
        old(store).spec_count() < i32::MAX as int,
    ensures
        final(store).wf(),
        !old(store).spec_is_broker(sender@) ==> (r matches Err(e) && e is NotBroker)
            && *final(store) == *old(store),
        old(store).spec_is_broker(sender@) ==> ({
            &&& r matches Ok(ev) && ev matches ExecEvent::OfferCreated { id } && id as int == old(
                store,
            ).spec_count() + 1
            &&& final(store).spec_count() == old(store).spec_count() + 1
            &&& final(store).spec_offers() == old(store).spec_offers().push(property@)
            &&& final(store).admin == old(store).admin
            &&& final(store).brokers == old(store).brokers
        }),
{
    match store.create_offer(sender, property) {
        Ok(id) => Ok(ExecEvent::OfferCreated { id }),
        Err(e) => Err(e),
    }
}

/// Routes a mutating request, with `sender` the authenticated caller.
///
/// `address_valid` carries the external identity validator's verdict on the
/// address in the message; pass `true` when the message carries none. For
/// `UpdateAdmin` the validator's verdict is consulted before the
/// authorization check, mirroring how the request envelope is decoded.
pub fn execute(store: &mut Store, sender: &String, msg: ExecuteMsg, address_valid: bool) -> (r:
    Result<ExecEvent, ContractError>)
    requires
        old(store).wf(),
        old(store).spec_count() < i32::MAX as int,
    ensures
        final(store).wf(),
        msg is Increment ==> (r matches Ok(ev) && ev is Incremented) && *final(store) == *old(
            store,
        ),
        msg matches ExecuteMsg::MakeBroker { address } ==> ({
            &&& !old(store).spec_is_admin(sender@) ==> (r matches Err(e) && e is Unauthorized)
                && *final(store) == *old(store)
            &&& old(store).spec_is_admin(sender@) && !address_valid ==> (r matches Err(e)
                && e is InvalidIdentity) && *final(store) == *old(store)
            &&& old(store).spec_is_admin(sender@) && address_valid && old(store).spec_is_broker(
                address@,
            ) ==> (r matches Err(e) && e is AlreadyBroker) && *final(store) == *old(store)
            &&& old(store).spec_is_admin(sender@) && address_valid && !old(store).spec_is_broker(
                address@,
            ) ==> ({
                &&& r matches Ok(ev) && ev matches ExecEvent::BrokerAdded { broker } && broker@
                    == address@
                &&& final(store).spec_brokers() == old(store).spec_brokers().push(address@)
                &&& final(store).admin == old(store).admin
                &&& final(store).state == old(store).state
                &&& final(store).properties == old(store).properties
            })
        }),
        msg matches ExecuteMsg::MakeOffer { property } ==> ({
            &&& !old(store).spec_is_broker(sender@) ==> (r matches Err(e) && e is NotBroker)
                && *final(store) == *old(store)
            &&& old(store).spec_is_broker(sender@) ==> ({
                &&& r matches Ok(ev) && ev matches ExecEvent::OfferCreated { id } && id as int
                    == old(store).spec_count() + 1
                &&& final(store).spec_count() == old(store).spec_count() + 1
                &&& final(store).spec_offers() == old(store).spec_offers().push(property@)
                &&& final(store).admin == old(store).admin
                &&& final(store).brokers == old(store).brokers
            })
        }),
        msg matches ExecuteMsg::UpdateAdmin { address } ==> ({
            &&& !address_valid ==> (r matches Err(e) && e is InvalidIdentity) && *final(store)
                == *old(store)
            &&& address_valid && !old(store).spec_is_admin(sender@) ==> (r matches Err(e)
                && e is Unauthorized) && *final(store) == *old(store)
            &&& address_valid && old(store).spec_is_admin(sender@) ==> ({
                &&& r matches Ok(ev) && ev matches ExecEvent::AdminUpdated { admin }
                    && admin matches Some(a) && a@ == address@
                &&& final(store).spec_admin() == Some(address@)
                &&& final(store).brokers == old(store).brokers
                &&& final(store).state == old(store).state
                &&& final(store).properties == old(store).properties
            })
        }),
{
    match msg {
        ExecuteMsg::Increment {} => try_increment(store),
        ExecuteMsg::MakeBroker { address } => try_make_broker(store, sender, address, address_valid),
        ExecuteMsg::MakeOffer { property } => try_make_offer(store, sender, property),
        ExecuteMsg::UpdateAdmin { address } => {
            if !address_valid {
                Err(ContractError::InvalidIdentity)
            } else {
                let new_admin = address.clone();
                match store.update_admin(sender, Some(address)) {
                    Ok(_) => Ok(ExecEvent::AdminUpdated { admin: Some(new_admin) }),
                    Err(e) => Err(e),
                }
            }
        },
    }
}

/// Answers a lookup of the offer stored under `id`: the record itself when
/// `1 <= id <= count`, `PropertyNotFound` otherwise. A pure read — calling
/// it any number of times returns the same answer as long as the store is
/// not written in between.
pub fn query_property(store: &Store, id: i32) -> (r: Result<PropertyResponse, ContractError>)
    ensures
        (r matches Ok(_)) <==> store.spec_offer(id as int) is Some,
        r matches Ok(resp) ==> Some(resp.property@) == store.spec_offer(id as int),
        r matches Err(e) ==> e is PropertyNotFound,
{
    match store.get_offer(id) {
        Some(p) => Ok(PropertyResponse { property: p.clone() }),
        None => Err(ContractError::PropertyNotFound),
    }
}

/// Routes a read-only request; performs no business logic of its own.
pub fn query(store: &Store, msg: QueryMsg) -> (r: Result<PropertyResponse, ContractError>)
    ensures
        msg matches QueryMsg::GetOffer { id } ==> ({
            &&& (r matches Ok(_)) <==> store.spec_offer(id as int) is Some
            &&& (r matches Ok(resp) ==> Some(resp.property@) == store.spec_offer(id as int))
            &&& (r matches Err(e) ==> e is PropertyNotFound)
        }),
{
    match msg {
        QueryMsg::GetOffer { id } => query_property(store, id),
    }
}

} // verus!
