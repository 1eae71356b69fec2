//! The customer registry: which provider-side customer stands for which user.

use vstd::prelude::*;
use vstd::string::StringExecFns;
use crate::lookup::{last_index, lemma_last_index};

verus! {

/// A user and the customer that the provider keeps for them.
pub struct Customer {
    pub internal_user_id: u64,
    pub external_customer_id: String,
    pub created_at: u64,
}

/// A customer as contracts see it.
pub ghost struct CustomerView {
    pub internal_user_id: u64,
    pub external_customer_id: Seq<char>,
    pub created_at: u64,
}

impl View for Customer {
    type V = CustomerView;

    open spec fn view(&self) -> CustomerView {
        CustomerView {
            internal_user_id: self.internal_user_id,
            external_customer_id: self.external_customer_id@,
            created_at: self.created_at,
        }
    }
}

impl Customer {
    /// A copy of the entry.
    pub fn duplicate(&self) -> (r: Customer)
        ensures
            r@ == self@,
    {
        Customer {
            internal_user_id: self.internal_user_id,
            external_customer_id: self.external_customer_id.clone(),
            created_at: self.created_at,
        }
    }
}

/// Why no customer could be handed out.
#[derive(Clone, Copy, PartialEq, Eq, Structural, Debug)]
pub enum RegistryError {
    /// The user has no customer yet and the provider did not supply one.
    ProviderUnreachable,
    /// The provider's identifier already stands for another user.
    Conflict,
}

/// The user of each entry, in order.
pub open spec fn user_ids(cs: Seq<CustomerView>) -> Seq<u64> {
    Seq::new(cs.len(), |i: int| cs[i].internal_user_id)
}

/// The provider's identifier of each entry, in order.
pub open spec fn external_ids(cs: Seq<CustomerView>) -> Seq<Seq<char>> {
    Seq::new(cs.len(), |i: int| cs[i].external_customer_id)
}

/// No user occurs twice, and no provider-side customer either.
pub open spec fn registry_wf(cs: Seq<CustomerView>) -> bool {
    user_ids(cs).no_duplicates() && external_ids(cs).no_duplicates()
}

/// The provider's identifier for a user, if the user has one.
pub open spec fn external_of(cs: Seq<CustomerView>, user: u64) -> Option<Seq<char>> {
    match last_index(user_ids(cs), user) {
        Some(i) => Some(cs[i].external_customer_id),
        None => None,
    }
}

/// The user behind a provider-side customer, if it is registered.
pub open spec fn owner_of(cs: Seq<CustomerView>, external: Seq<char>) -> Option<u64> {
    match last_index(external_ids(cs), external) {
        Some(i) => Some(cs[i].internal_user_id),
        None => None,
    }
}

/// The registry after a user asked for their customer, and what they are
/// told. `fresh` is the identifier that the provider created for the
/// occasion, where it was asked and answered.
///
/// A user who has a customer keeps it and `fresh` is dropped. Otherwise the
/// new identifier is entered, unless there is none or it is already taken: then
/// nothing is entered.
pub open spec fn enrolled(
    cs: Seq<CustomerView>,
    user: u64,
    fresh: Option<Seq<char>>,
    now: u64,
) -> (Seq<CustomerView>, Result<Seq<char>, RegistryError>) {
    match external_of(cs, user) {
        Some(existing) => (cs, Ok(existing)),
        None => match fresh {
            None => (cs, Err(RegistryError::ProviderUnreachable)),
            Some(external) => if owner_of(cs, external) is Some {
                (cs, Err(RegistryError::Conflict))
            } else {
                (
                    cs.push(
                        CustomerView {
                            internal_user_id: user,
                            external_customer_id: external,
                            created_at: now,
                        },
                    ),
                    Ok(external),
                )
            },
        },
    }
}

/// Entering a customer keeps the registry free of doubles.
pub proof fn lemma_enrolled_wf(cs: Seq<CustomerView>, user: u64, fresh: Option<Seq<char>>, now: u64)
    requires
        registry_wf(cs),
    ensures
        registry_wf(enrolled(cs, user, fresh, now).0),
        cs.is_prefix_of(enrolled(cs, user, fresh, now).0),
{
    let after = enrolled(cs, user, fresh, now).0;
    if after != cs {
        lemma_last_index(user_ids(cs), user);
        lemma_last_index(external_ids(cs), fresh->0);
        assert forall|i: int, j: int|
            0 <= i < after.len() && 0 <= j < after.len() && i != j implies user_ids(after)[i]
            != user_ids(after)[j] by {
            if i < cs.len() {
                assert(user_ids(after)[i] == user_ids(cs)[i]);
            }
            if j < cs.len() {
                assert(user_ids(after)[j] == user_ids(cs)[j]);
            }
        }
        assert forall|i: int, j: int|
            0 <= i < after.len() && 0 <= j < after.len() && i != j implies external_ids(after)[i]
            != external_ids(after)[j] by {
            if i < cs.len() {
                assert(external_ids(after)[i] == external_ids(cs)[i]);
            }
            if j < cs.len() {
                assert(external_ids(after)[j] == external_ids(cs)[j]);
            }
        }
    }
}

/// The customers, one entry per user.
pub struct CustomerRegistry {
    entries: Vec<Customer>,
}

impl View for CustomerRegistry {
    type V = Seq<CustomerView>;

    closed spec fn view(&self) -> Seq<CustomerView> {
        Seq::new(self.entries@.len(), |i: int| self.entries@[i]@)
    }
}

impl CustomerRegistry {
    /// No user occurs twice, and no provider-side customer either.
    pub open spec fn wf(&self) -> bool {
        registry_wf(self@)
    }

    /// A registry without customers.
    pub fn new() -> (r: CustomerRegistry)
        ensures
            r@ == Seq::<CustomerView>::empty(),
            r.wf(),
    {
        let r = CustomerRegistry { entries: Vec::new() };
        assert(r@ =~= Seq::<CustomerView>::empty());
        r
    }

    /// A copy of the registry, for a caller that wants to go back to it
    /// should it fail to store what came after.
    pub fn duplicate(&self) -> (r: CustomerRegistry)
        ensures
            r@ == self@,
    {
        let mut entries: Vec<Customer> = Vec::new();
        let mut i: usize = 0;
        while i < self.entries.len()
            invariant
                i <= self.entries@.len(),
                entries@.len() == i,
                forall|j: int| 0 <= j < i ==> (#[trigger] entries@[j])@ == self.entries@[j]@,
            decreases self.entries@.len() - i,
        {
            entries.push(self.entries[i].duplicate());
            i += 1;
        }
        let r = CustomerRegistry { entries };
        assert(r@ =~= self@);
        r
    }

    /// How many customers are registered.
    pub fn len(&self) -> (n: usize)
        ensures
            n == self@.len(),
    {
        self.entries.len()
    }

    fn position_of_user(&self, user: u64) -> (r: Option<usize>)
        ensures
            match r {
                Some(i) => last_index(user_ids(self@), user) == Some(i as int) && i < self@.len(),
                None => last_index(user_ids(self@), user) is None,
            },
    {
        let mut i: usize = self.entries.len();
        while i > 0
            invariant
                i <= self.entries@.len(),
                forall|j: int| i <= j < self@.len() ==> user_ids(self@)[j] != user,
            decreases i,
        {
            i -= 1;
            if self.entries[i].internal_user_id == user {
                proof {
                    assert(user_ids(self@)[i as int] == user);
                    lemma_last_index(user_ids(self@), user);
                }
                return Some(i);
            }
        }
        proof {
            lemma_last_index(user_ids(self@), user);
        }
        None
    }

    fn position_of_external(&self, external: &str) -> (r: Option<usize>)
        ensures
            match r {
                Some(i) => last_index(external_ids(self@), external@) == Some(i as int) && i
                    < self@.len(),
                None => last_index(external_ids(self@), external@) is None,
            },
    {
        let wanted = String::from_str(external);
        let mut i: usize = self.entries.len();
        while i > 0
            invariant
                i <= self.entries@.len(),
                wanted@ == external@,
                forall|j: int| i <= j < self@.len() ==> external_ids(self@)[j] != external@,
            decreases i,
        {
            i -= 1;
            if self.entries[i].external_customer_id == wanted {
                proof {
                    assert(external_ids(self@)[i as int] == external@);
                    lemma_last_index(external_ids(self@), external@);
                }
                return Some(i);
            }
        }
        proof {
            lemma_last_index(external_ids(self@), external@);
        }
        None
    }

    /// The provider's identifier for a user, if the user has one.
    pub fn external_id(&self, user_id: u64) -> (r: Option<String>)
        ensures
            crate::subscription::text_of(r) == external_of(self@, user_id),
    {
        match self.position_of_user(user_id) {
            Some(i) => Some(self.entries[i].external_customer_id.clone()),
            None => None,
        }
    }

    /// The user behind a provider-side customer, if it is registered.
    pub fn lookup_customer(&self, external_customer_id: &str) -> (r: Option<u64>)
        ensures
            r == owner_of(self@, external_customer_id@),
    {
        match self.position_of_external(external_customer_id) {
            Some(i) => Some(self.entries[i].internal_user_id),
            None => None,
        }
    }

    /// Hands out the user's customer, entering it first where the user has
    /// none. `fresh` is what the provider created for the occasion, `None`
    /// where it was not asked or did not answer. Calling again for a user who
    /// has a customer changes nothing and yields the same identifier.
    pub fn get_or_create_customer(
        &mut self,
        user_id: u64,
        fresh: Option<String>,
        now: u64,
    ) -> (r: Result<String, RegistryError>)
        requires
            old(self).wf(),
        ensures
            final(self).wf(),
            final(self)@ == enrolled(old(self)@, user_id, crate::subscription::text_of(fresh), now).0,
            old(self)@.is_prefix_of(final(self)@),
            match r {
                Ok(external) => enrolled(
                    old(self)@,
                    user_id,
                    crate::subscription::text_of(fresh),
                    now,
                ).1 == Ok::<Seq<char>, RegistryError>(external@),
                Err(e) => enrolled(
                    old(self)@,
                    user_id,
                    crate::subscription::text_of(fresh),
                    now,
                ).1 == Err::<Seq<char>, RegistryError>(e),
            },
    {
        proof {
            lemma_enrolled_wf(old(self)@, user_id, crate::subscription::text_of(fresh), now);
        }
        if let Some(i) = self.position_of_user(user_id) {
            return Ok(self.entries[i].external_customer_id.clone());
        }
        let external = match fresh {
            None => {
                return Err(RegistryError::ProviderUnreachable);
            },
            Some(external) => external,
        };
        if self.position_of_external(external.as_str()).is_some() {
            return Err(RegistryError::Conflict);
        }
        let handed_out = external.clone();
        self.entries.push(
            Customer { internal_user_id: user_id, external_customer_id: external, created_at: now },
        );
        assert(self@ =~= old(self)@.push(
            CustomerView {
                internal_user_id: user_id,
                external_customer_id: external@,
                created_at: now,
            },
        ));
        Ok(handed_out)
    }
}

} // verus!
