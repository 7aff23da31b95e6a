//! The persistent state of the registry, its mathematical model, and the
//! component operations: the admin registry, the broker registry, and the
//! offer ledger.

use vstd::prelude::*;

use crate::error::ContractError;

verus! {

/// The kinds of dwellings an offer may describe.
#[derive(Clone, Copy, Debug, PartialEq, Eq, Structural)]
pub enum PropertyType {
    OneRoom,
    TwoRoom,
    ThreeRoom,
    FourRoom,
    MultiRoom,
}

/// The closed set of geographic regions an offer may name.
#[derive(Clone, Copy, Debug, PartialEq, Eq, Structural)]
pub enum PropertyRegion {
    Varna,
    Byala,
    Sofia,
    Razgrad,
    Obzor,
    Burgas,
    Plovdiv,
}

/// An immutable property-offer record. Once stored in the ledger it is never
/// mutated or deleted.
#[derive(Debug, PartialEq)]
pub struct Property {
    pub property_type: PropertyType,
    pub region: PropertyRegion,
    pub squaring: String,
    pub construction: String,
    pub floor: String,
    pub description: Option<String>,
}

/// The mathematical value of a [`Property`]: the same record with every
/// free-text field read as its sequence of characters.
pub struct PropertyView {
    pub property_type: PropertyType,
    pub region: PropertyRegion,
    pub squaring: Seq<char>,
    pub construction: Seq<char>,
    pub floor: Seq<char>,
    pub description: Option<Seq<char>>,
}

impl View for Property {
    type V = PropertyView;

    open spec fn view(&self) -> PropertyView {
        PropertyView {
            property_type: self.property_type,
            region: self.region,
            squaring: self.squaring@,
            construction: self.construction@,
            floor: self.floor@,
            description: match self.description {
                Some(d) => Some(d@),
                None => None,
            },
        }
    }
}

impl Clone for Property {
    /// Cloning keeps every field, down to the characters of the free text.
    fn clone(&self) -> (r: Property)
        ensures
            r@ == self@,
    {
        Property {
            property_type: self.property_type,
            region: self.region,
            squaring: self.squaring.clone(),
            construction: self.construction.clone(),
            floor: self.floor.clone(),
            description: match &self.description {
                Some(d) => Some(d.clone()),
                None => None,
            },
        }
    }
}

/// The offer counter, kept under its own storage key by the adapter.
#[derive(Clone, Copy, Debug, PartialEq, Eq, Structural)]
pub struct State {
    pub count: i32,
}

/// The whole persistent state of the registry, threaded explicitly through
/// every operation: the administrator slot, the broker set, the offer
/// counter, and the offers in creation order.
///
/// The offer with identifier `id` (1-based) is `properties[id - 1]`;
/// identifiers are contiguous because they are assigned as `count + 1` in the
/// same step that advances the counter.
#[derive(Debug)]
pub struct Store {
    pub admin: Option<String>,
    pub brokers: Vec<String>,
    pub state: State,
    pub properties: Vec<Property>,
}

impl Store {
    /// The administrator slot, as a sequence of characters.
    pub open spec fn spec_admin(self) -> Option<Seq<char>> {
        match self.admin {
            Some(a) => Some(a@),
            None => None,
        }
    }

    /// Whether `caller` is the current administrator. False whenever the
    /// slot is empty.
    pub open spec fn spec_is_admin(self, caller: Seq<char>) -> bool {
        self.spec_admin() == Some(caller)
    }

    /// The broker set, in insertion order.
    pub open spec fn spec_brokers(self) -> Seq<Seq<char>> {
        self.brokers@.map_values(|b: String| b@)
    }

    /// Whether `id` is a member of the broker set.
    pub open spec fn spec_is_broker(self, id: Seq<char>) -> bool {
        exists|i: int| 0 <= i < self.spec_brokers().len() && self.spec_brokers()[i] == id
    }

    /// The offer counter.
    pub open spec fn spec_count(self) -> int {
        self.state.count as int
    }

    /// The offers in creation order; the offer with identifier `id` sits at
    /// position `id - 1`.
    pub open spec fn spec_offers(self) -> Seq<PropertyView> {
        self.properties@.map_values(|p: Property| p@)
    }

    /// The offer stored under `id`, if any.
    pub open spec fn spec_offer(self, id: int) -> Option<PropertyView> {
        if 1 <= id && id <= self.spec_offers().len() {
            Some(self.spec_offers()[id - 1])
        } else {
            None
        }
    }

    /// Well-formedness: the counter equals the number of stored offers (so
    /// identifiers run contiguously from 1), and no identity appears twice
    /// in the broker set.
    pub open spec fn wf(self) -> bool {
        &&& self.state.count >= 0
        &&& self.state.count as int == self.spec_offers().len()
        &&& forall|i: int, j: int|
            #![trigger self.spec_brokers()[i], self.spec_brokers()[j]]
            0 <= i < j < self.spec_brokers().len()
                ==> self.spec_brokers()[i] != self.spec_brokers()[j]
    }

    /// Succeeds exactly when `caller` is the current administrator; a pure
    /// read with no mutation.
    pub fn require_admin(&self, caller: &String) -> (r: Result<(), ContractError>)
        ensures
            (r matches Ok(_)) <==> self.spec_is_admin(caller@),
            r matches Err(e) ==> e is Unauthorized,
    {
        match &self.admin {
            Some(a) => {
                if *a == *caller {
                    Ok(())
                } else {
                    Err(ContractError::Unauthorized)
                }
            },
            None => Err(ContractError::Unauthorized),
        }
    }

    /// Pure membership test on the broker set; no authorization required.
    pub fn is_broker(&self, id: &String) -> (r: bool)
        ensures
            r == self.spec_is_broker(id@),
    {
        let mut i: usize = 0;
        while i < self.brokers.len()
            invariant
                i <= self.brokers.len(),
                forall|k: int| 0 <= k < i ==> #[trigger] self.spec_brokers()[k] != id@,
            decreases self.brokers.len() - i,
        {
            if self.brokers[i] == *id {
                proof {
                    assert(self.spec_brokers()[i as int] == id@);
                }
                return true;
            }
            i = i + 1;
        }
        false
    }

    /// Rotates the administrator slot. Allowed only for the current
    /// administrator. The new value may be `None`, which clears the slot:
    /// once cleared, no caller can pass `require_admin` again until the
    /// store is rewritten out of band — an intentional tradeoff, kept here
    /// as documented behavior.
    pub fn update_admin(&mut self, caller: &String, new_admin: Option<String>) -> (r: Result<
        (),
        ContractError,
    >)
        ensures
            (r matches Ok(_)) <==> old(self).spec_is_admin(caller@),
            r matches Err(e) ==> e is Unauthorized && *final(self) == *old(self),
            r matches Ok(_) ==> ({
                &&& final(self).spec_admin() == (match new_admin {
                    Some(a) => Some(a@),
                    None => None::<Seq<char>>,
                })
                &&& final(self).brokers == old(self).brokers
                &&& final(self).state == old(self).state
                &&& final(self).properties == old(self).properties
            }),
            old(self).wf() ==> final(self).wf(),
    {
        let check = self.require_admin(caller);
        match check {
            Ok(_) => {
                self.admin = new_admin;
                proof {
                    assert(self.spec_brokers() =~= old(self).spec_brokers());
                    assert(self.spec_offers() =~= old(self).spec_offers());
                }
                Ok(())
            },
            Err(e) => Err(e),
        }
    }

    /// Adds `address` to the broker set.
    ///
    /// Checks, in this order: the caller must be the administrator
    /// (`Unauthorized`); the candidate must have passed the external
    /// identity validator, whose verdict arrives as `address_valid`
    /// (`InvalidIdentity`); the candidate must not already be a broker
    /// (`AlreadyBroker`). The first failing check leaves the store
    /// untouched.
    pub fn add_broker(&mut self, caller: &String, address: String, address_valid: bool) -> (r:
        Result<(), ContractError>)
        requires
            old(self).wf(),
        ensures
            final(self).wf(),
            !old(self).spec_is_admin(caller@) ==> (r matches Err(e) && e is Unauthorized)
                && *final(self) == *old(self),
            old(self).spec_is_admin(caller@) && !address_valid ==> (r matches Err(e)
                && e is InvalidIdentity) && *final(self) == *old(self),
            old(self).spec_is_admin(caller@) && address_valid && old(self).spec_is_broker(address@)
                ==> (r matches Err(e) && e is AlreadyBroker) && *final(self) == *old(self),
            old(self).spec_is_admin(caller@) && address_valid && !old(self).spec_is_broker(address@)
                ==> ({
                &&& r matches Ok(_)
                &&& final(self).spec_brokers() == old(self).spec_brokers().push(address@)
                &&& final(self).admin == old(self).admin
                &&& final(self).state == old(self).state
                &&& final(self).properties == old(self).properties
            }),
    {
        let check = self.require_admin(caller);
        match check {
            Err(e) => Err(e),
            Ok(_) => {
                if !address_valid {
                    Err(ContractError::InvalidIdentity)
                } else if self.is_broker(&address) {
                    Err(ContractError::AlreadyBroker)
                } else {
                    let ghost pre = *self;
                    self.brokers.push(address);
                    proof {
                        assert(self.spec_brokers() =~= pre.spec_brokers().push(address@));
                    }
                    Ok(())
                }
            },
        }
    }

    /// Creates a new offer on behalf of `caller`, who must be a broker.
    ///
    /// The new identifier is `count + 1`; the counter and the ledger entry
    /// advance together, so the call can never overwrite an existing entry.
    /// A non-broker caller gets `NotBroker` and the store is untouched.
    pub fn create_offer(&mut self, caller: &String, property: Property) -> (r: Result<
        i32,
        ContractError,
    >)
        requires
            old(self).wf(),
            old(self).spec_count() < i32::MAX as int,
        ensures
            final(self).wf(),
            !old(self).spec_is_broker(caller@) ==> (r matches Err(e) && e is NotBroker)
                && *final(self) == *old(self),
            old(self).spec_is_broker(caller@) ==> ({
                &&& r matches Ok(id) && id as int == old(self).spec_count() + 1
                &&& final(self).spec_count() == old(self).spec_count() + 1
                &&& final(self).spec_offers() == old(self).spec_offers().push(property@)
                &&& final(self).admin == old(self).admin
                &&& final(self).brokers == old(self).brokers
            }),
    {
        if !self.is_broker(caller) {
            return Err(ContractError::NotBroker);
        }
        let ghost pre = *self;
        let new_id: i32 = self.state.count + 1;
        self.properties.push(property);
        self.state.count = new_id;
        proof {
            assert(self.spec_offers() =~= pre.spec_offers().push(property@));
        }
        Ok(new_id)
    }

    /// Looks up the offer stored under `id`; a pure read, no authorization
    /// required.
    pub fn get_offer(&self, id: i32) -> (r: Option<&Property>)
        ensures
            (r matches Some(_)) <==> self.spec_offer(id as int) is Some,
            r matches Some(p) ==> Some(p@) == self.spec_offer(id as int),
    {
        if 1 <= id && (id as usize) <= self.properties.len() {
            Some(&self.properties[(id - 1) as usize])
        } else {
            None
        }
    }
}

/// Law: once the administrator slot holds one identity, exactly that
/// identity passes the administrator check — every other identity is
/// turned away. In particular this holds right after bootstrap.
pub proof fn lemma_bootstrap_admin(s: Store, a: Seq<char>, b: Seq<char>)
    requires
        s.spec_admin() == Some(a),
    ensures
        s.spec_is_admin(a),
        b != a ==> !s.spec_is_admin(b),
{
}

/// Law: a well-formed store holds each member of the broker set exactly
/// once — there is a position for the member, and any two positions that
/// hold it coincide.
pub proof fn lemma_broker_appears_once(s: Store, x: Seq<char>)
    requires
        s.wf(),
        s.spec_is_broker(x),
    ensures
        exists|i: int| 0 <= i < s.spec_brokers().len() && s.spec_brokers()[i] == x,
        forall|i: int, j: int|
            #![trigger s.spec_brokers()[i], s.spec_brokers()[j]]
            0 <= i < s.spec_brokers().len() && 0 <= j < s.spec_brokers().len()
                && s.spec_brokers()[i] == x && s.spec_brokers()[j] == x ==> i == j,
{
}

/// Law: what a lookup returns depends on the stored offers alone — two
/// stores with the same ledger answer every identifier the same way, so a
/// read repeated with no intervening write cannot change.
pub proof fn lemma_lookup_deterministic(s1: Store, s2: Store, id: int)
    requires
        s1.spec_offers() == s2.spec_offers(),
    ensures
        s1.spec_offer(id) == s2.spec_offer(id),
{
}

} // verus!
