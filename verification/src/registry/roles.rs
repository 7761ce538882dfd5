//! Roles, which the owner grants and revokes.

use crate::registry::{Registry, RoleSet};
use crate::registry::events::{RegistryEvent, RoleGranted, RoleRevoked};
use crate::registry::model::RegistryView;
use crate::shared::{AccountId, Error, Role};
use vstd::prelude::*;

verus! {

impl Registry {
    /// Gives `account` the role. Only the owner may.
    pub fn grant_role(
        &mut self,
        caller: AccountId,
        role: Role,
        account: AccountId,
    ) -> (result: Result<(), Error>)
        requires
            old(self).wf(),
        ensures
            final(self).wf(),
            result == if caller != old(self)@.owner {
                Err::<(), Error>(Error::Unauthorized)
            } else if account == AccountId::spec_zero() {
                Err::<(), Error>(Error::ZeroAddress)
            } else {
                Ok::<(), Error>(())
            },
            result.is_err() ==> final(self)@ == old(self)@,
            result.is_ok() ==> final(self)@ == (RegistryView {
                roles: old(self)@.roles.insert((role, account)),
                events: old(self)@.events.push(
                    RegistryEvent::RoleGranted(RoleGranted { role, account, granted_by: caller }),
                ),
                ..old(self)@
            }),
    {
        self.ensure_owner(caller)?;
        if account.is_zero() {
            return Err(Error::ZeroAddress);
        }
        let held = match self.role_members.get(&account) {
            Some(roles) => *roles,
            None => RoleSet::empty(),
        };
        self.role_members.insert(account, held.with(role, true));
        self.events.push(
            RegistryEvent::RoleGranted(RoleGranted { role, account, granted_by: caller }),
        );
        proof {
            assert forall|p: (Role, AccountId)|
                self@.roles.contains(p) == old(self)@.roles.insert((role, account)).contains(
                    p,
                ) by {
                if p.1 == account {
                    assert(held.set(role, true).has(p.0) == (held.has(p.0) || p.0 == role));
                }
            }
            assert(self@.roles =~= old(self)@.roles.insert((role, account)));
        }
        Ok(())
    }

    /// Takes the role from `account`. Only the owner may.
    pub fn revoke_role(
        &mut self,
        caller: AccountId,
        role: Role,
        account: AccountId,
    ) -> (result: Result<(), Error>)
        requires
            old(self).wf(),
        ensures
            final(self).wf(),
            result == if caller != old(self)@.owner {
                Err::<(), Error>(Error::Unauthorized)
            } else {
                Ok::<(), Error>(())
            },
            result.is_err() ==> final(self)@ == old(self)@,
            result.is_ok() ==> final(self)@ == (RegistryView {
                roles: old(self)@.roles.remove((role, account)),
                events: old(self)@.events.push(
                    RegistryEvent::RoleRevoked(RoleRevoked { role, account, revoked_by: caller }),
                ),
                ..old(self)@
            }),
    {
        self.ensure_owner(caller)?;
        let held = match self.role_members.get(&account) {
            Some(roles) => Some(*roles),
            None => None,
        };
        match held {
            Some(roles) => {
                self.role_members.insert(account, roles.with(role, false));
            },
            None => {},
        }
        self.events.push(
            RegistryEvent::RoleRevoked(RoleRevoked { role, account, revoked_by: caller }),
        );
        proof {
            assert(self@.roles =~= old(self)@.roles.remove((role, account)));
        }
        Ok(())
    }

    /// Whether `account` holds `role`.
    pub fn has_role(&self, role: Role, account: AccountId) -> (r: bool)
        requires
            self.wf(),
        ensures
            r == self@.has_role(role, account),
    {
        match self.role_members.get(&account) {
            Some(roles) => roles.holds(role),
            None => false,
        }
    }
}

} // verus!
