//! The key-set model: associated keys, their roles, and the session state
//! that accumulates a validated configuration before rendering.

use vstd::prelude::*;

use crate::account_hash::{
    spec_is_valid_formatted, spec_parse_error_msg, spec_parsed_bytes, AccountHash,
};
use crate::errors::Error;

verus! {

/// The role of an associated key: the primary key that originates the
/// account (optionally removed again after setup), or a secondary key.
#[derive(Clone, Copy, Debug, PartialEq, Eq, Structural)]
pub enum AssociatedKeyKind {
    Primary { remove_after_creation: bool },
    Secondary,
}

/// One associated key: an account identity, its role, and its weight.
#[derive(Clone, Debug, PartialEq, Eq)]
pub struct AssociatedKey {
    pub account_hash: AccountHash,
    pub kind: AssociatedKeyKind,
    pub weight: u8,
}

/// Whether a key, once created, asks for its own removal: true only for a
/// primary key built with the flag set.
pub open spec fn spec_remove_after_creation(k: AssociatedKey) -> bool {
    match k.kind {
        AssociatedKeyKind::Primary { remove_after_creation } => remove_after_creation,
        AssociatedKeyKind::Secondary => false,
    }
}

impl AssociatedKey {
    /// The key's validity: its identity is well-formed.
    pub open spec fn wf(self) -> bool {
        self.account_hash.wf()
    }

    /// Parses a formatted account hash into the primary key.
    pub fn new_primary(formatted_account_hash: &str, weight: u8, remove_after_creation: bool) -> (r:
        Result<AssociatedKey, Error>)
        ensures
            match r {
                Ok(k) => spec_is_valid_formatted(formatted_account_hash@) && k.wf()
                    && k.account_hash.bytes@ == spec_parsed_bytes(formatted_account_hash@)
                    && k.kind == (AssociatedKeyKind::Primary { remove_after_creation })
                    && k.weight == weight,
                Err(e) => !spec_is_valid_formatted(formatted_account_hash@) && (e
                    matches Error::ParseAccountHash { inner } && inner@ == spec_parse_error_msg(
                    formatted_account_hash@,
                )),
            },
    {
        match AccountHash::from_formatted_str(formatted_account_hash) {
            Ok(account_hash) => Ok(
                AssociatedKey {
                    account_hash,
                    kind: AssociatedKeyKind::Primary { remove_after_creation },
                    weight,
                },
            ),
            Err(inner) => Err(Error::ParseAccountHash { inner }),
        }
    }

    /// Parses a formatted account hash into a secondary key.
    pub fn new_secondary(formatted_account_hash: &str, weight: u8) -> (r: Result<
        AssociatedKey,
        Error,
    >)
        ensures
            match r {
                Ok(k) => spec_is_valid_formatted(formatted_account_hash@) && k.wf()
                    && k.account_hash.bytes@ == spec_parsed_bytes(formatted_account_hash@)
                    && k.kind == AssociatedKeyKind::Secondary && k.weight == weight,
                Err(e) => !spec_is_valid_formatted(formatted_account_hash@) && (e
                    matches Error::ParseAccountHash { inner } && inner@ == spec_parse_error_msg(
                    formatted_account_hash@,
                )),
            },
    {
        match AccountHash::from_formatted_str(formatted_account_hash) {
            Ok(account_hash) => Ok(
                AssociatedKey { account_hash, kind: AssociatedKeyKind::Secondary, weight },
            ),
            Err(inner) => Err(Error::ParseAccountHash { inner }),
        }
    }

    /// Whether this key should be removed again once the account is set up.
    pub fn remove_after_creation(&self) -> (r: bool)
        ensures
            r == spec_remove_after_creation(*self),
    {
        match self.kind {
            AssociatedKeyKind::Primary { remove_after_creation } => remove_after_creation,
            AssociatedKeyKind::Secondary => false,
        }
    }
}

/// The session state: where the generated project goes, what it is called,
/// and the validated key configuration to render into it.
#[derive(Debug)]
pub struct SmartContract {
    pub root_dir: String,
    pub contract_name: String,
    pub associated_keys: Vec<AssociatedKey>,
    pub key_management_weight: u8,
    pub deployment_weight: u8,
}

impl SmartContract {
    /// The session's validity: every stored key is well-formed.
    pub open spec fn wf(self) -> bool {
        forall|i: int|
            0 <= i < self.associated_keys@.len() ==> self.associated_keys@[i].wf()
    }

    /// Whether the stored key list is a validated configuration: the first
    /// key is primary and all others are secondary.
    pub open spec fn keys_structured(self) -> bool {
        forall|i: int|
            0 <= i < self.associated_keys@.len() ==> if i == 0 {
                self.associated_keys@[i].kind matches AssociatedKeyKind::Primary { .. }
            } else {
                self.associated_keys@[i].kind == AssociatedKeyKind::Secondary
            }
    }

    /// Replaces the whole key configuration and both thresholds.
    ///
    /// Entry 0 of `keys` becomes the primary key; the remaining entries
    /// become secondary keys in input order.  On any failure the previous
    /// configuration stays in effect.
    pub fn set_associated_keys_and_thresholds(
        &mut self,
        keys: Vec<(String, u8)>,
        primary_key_should_be_deleted: bool,
        key_management_weight: u8,
        deployment_weight: u8,
    ) -> (r: Result<(), Error>)
        ensures
            (r is Ok) <==> (keys@.len() > 0 && (forall|i: int|
                0 <= i < keys@.len() ==> spec_is_valid_formatted(keys@[i].0@))),
            match r {
                Ok(()) => {
                    &&& final(self).root_dir@ == old(self).root_dir@
                    &&& final(self).contract_name@ == old(self).contract_name@
                    &&& final(self).key_management_weight == key_management_weight
                    &&& final(self).deployment_weight == deployment_weight
                    &&& final(self).associated_keys@.len() == keys@.len()
                    &&& forall|i: int|
                        0 <= i < keys@.len() ==> #[trigger] spec_key_matches(
                            final(self).associated_keys@[i],
                            keys@[i],
                            i,
                            primary_key_should_be_deleted,
                        )
                    &&& final(self).wf()
                    &&& final(self).keys_structured()
                },
                Err(e) => {
                    &&& *final(self) == *old(self)
                    &&& if keys@.len() == 0 {
                        e matches Error::NoKeys
                    } else {
                        spec_first_invalid_err(keys@, e)
                    }
                },
            },
    {
        if keys.len() == 0 {
            return Err(Error::NoKeys);
        }
        let mut associated_keys: Vec<AssociatedKey> = Vec::new();
        let primary = match AssociatedKey::new_primary(
            keys[0].0.as_str(),
            keys[0].1,
            primary_key_should_be_deleted,
        ) {
            Ok(k) => k,
            Err(e) => {
                proof {
                    assert(spec_first_invalid_err(keys@, e)) by {
                        assert(!spec_is_valid_formatted(keys@[0].0@) && (forall|j: int|
                            0 <= j < 0 ==> spec_is_valid_formatted(keys@[j].0@)));
                    }
                }
                return Err(e);
            },
        };
        associated_keys.push(primary);
        let mut i: usize = 1;
        while i < keys.len()
            invariant
                1 <= i <= keys@.len(),
                associated_keys@.len() == i,
                forall|j: int| 0 <= j < i ==> spec_is_valid_formatted(keys@[j].0@),
                forall|j: int|
                    0 <= j < i ==> #[trigger] spec_key_matches(
                        associated_keys@[j],
                        keys@[j],
                        j,
                        primary_key_should_be_deleted,
                    ),
            decreases keys@.len() - i,
        {
            let ghost prev = associated_keys@;
            match AssociatedKey::new_secondary(keys[i].0.as_str(), keys[i].1) {
                Ok(k) => {
                    associated_keys.push(k);
                    proof {
                        assert(forall|j: int|
                            0 <= j < i ==> #[trigger] associated_keys@[j] == prev[j]);
                        assert(spec_key_matches(
                            associated_keys@[i as int],
                            keys@[i as int],
                            i as int,
                            primary_key_should_be_deleted,
                        ));
                    }
                },
                Err(e) => {
                    proof {
                        assert(spec_first_invalid_err(keys@, e)) by {
                            assert(!spec_is_valid_formatted(keys@[i as int].0@) && (forall|j: int|
                                0 <= j < i ==> spec_is_valid_formatted(keys@[j].0@)));
                        }
                    }
                    return Err(e);
                },
            }
            i = i + 1;
        }
        self.associated_keys = associated_keys;
        self.key_management_weight = key_management_weight;
        self.deployment_weight = deployment_weight;
        proof {
            assert forall|t: int|
                0 <= t < self.associated_keys@.len() implies #[trigger] self.associated_keys@[t].wf() by {
                assert(spec_key_matches(
                    self.associated_keys@[t],
                    keys@[t],
                    t,
                    primary_key_should_be_deleted,
                ));
            }
            assert forall|t: int|
                0 <= t < self.associated_keys@.len() implies if t == 0 {
                self.associated_keys@[t].kind matches AssociatedKeyKind::Primary { .. }
            } else {
                self.associated_keys@[t].kind == AssociatedKeyKind::Secondary
            } by {
                assert(spec_key_matches(
                    self.associated_keys@[t],
                    keys@[t],
                    t,
                    primary_key_should_be_deleted,
                ));
            }
            assert(self.wf());
            assert(self.keys_structured());
        }
        Ok(())
    }
}

/// Whether a stored key is the validated form of one raw entry: parsed
/// bytes, same weight, and the role position `i` dictates (primary at 0,
/// secondary elsewhere).
pub open spec fn spec_key_matches(
    k: AssociatedKey,
    raw: (String, u8),
    i: int,
    remove_after_creation: bool,
) -> bool {
    &&& k.wf()
    &&& k.account_hash.bytes@ == spec_parsed_bytes(raw.0@)
    &&& k.weight == raw.1
    &&& k.kind == if i == 0 {
        AssociatedKeyKind::Primary { remove_after_creation }
    } else {
        AssociatedKeyKind::Secondary
    }
}

/// Holds of the error reported for a non-empty key list: some entry fails
/// to parse, every entry before it parses, and the error carries that
/// entry's parse message.
pub open spec fn spec_first_invalid_err(keys: Seq<(String, u8)>, e: Error) -> bool {
    exists|i: int|
        #![auto]
        {
            &&& 0 <= i < keys.len()
            &&& !spec_is_valid_formatted(keys[i].0@)
            &&& forall|j: int| 0 <= j < i ==> spec_is_valid_formatted(keys[j].0@)
            &&& e matches Error::ParseAccountHash { inner } && inner@ == spec_parse_error_msg(
                keys[i].0@,
            )
        }
}

impl Default for SmartContract {
    /// An empty session: no paths, no keys, zero thresholds.
    fn default() -> (r: SmartContract)
        ensures
            r.root_dir@.len() == 0,
            r.contract_name@.len() == 0,
            r.associated_keys@.len() == 0,
            r.key_management_weight == 0,
            r.deployment_weight == 0,
    {
        SmartContract {
            root_dir: String::new(),
            contract_name: String::new(),
            associated_keys: Vec::new(),
            key_management_weight: 0,
            deployment_weight: 0,
        }
    }
}

} // verus!
