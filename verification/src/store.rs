//! The persisted defaults a command falls back on: subscription, resource
//! group, and the vault's name and resource group.  Loading and saving the
//! file live with the caller; this type only holds and applies the values.

use vstd::prelude::*;

use crate::error::AppError;

verus! {

/// The configured defaults.  Each is absent until set.
pub struct Store {
    resource_group: Option<String>,
    subscription_id: Option<String>,
    vault_resource_group: Option<String>,
    vault_name: Option<String>,
}

impl Store {
    /// The configured default resource group.
    pub closed spec fn spec_resource_group(&self) -> Option<Seq<char>> {
        match self.resource_group {
            Some(s) => Some(s@),
            None => None,
        }
    }

    /// The configured default subscription id.
    pub closed spec fn spec_subscription_id(&self) -> Option<Seq<char>> {
        match self.subscription_id {
            Some(s) => Some(s@),
            None => None,
        }
    }

    /// The configured default resource group of the vault.
    pub closed spec fn spec_vault_resource_group(&self) -> Option<Seq<char>> {
        match self.vault_resource_group {
            Some(s) => Some(s@),
            None => None,
        }
    }

    /// The configured default vault name.
    pub closed spec fn spec_vault_name(&self) -> Option<Seq<char>> {
        match self.vault_name {
            Some(s) => Some(s@),
            None => None,
        }
    }

    /// A store with nothing configured.
    pub fn new() -> (r: Store)
        ensures
            r.spec_resource_group() is None,
            r.spec_subscription_id() is None,
            r.spec_vault_resource_group() is None,
            r.spec_vault_name() is None,
    {
        Store {
            resource_group: None,
            subscription_id: None,
            vault_resource_group: None,
            vault_name: None,
        }
    }

    /// Sets the default resource group.
    pub fn set_resource_group(&mut self, resource_group: &str)
        ensures
            final(self).spec_resource_group() == Some(resource_group@),
            final(self).spec_subscription_id() == old(self).spec_subscription_id(),
            final(self).spec_vault_resource_group() == old(self).spec_vault_resource_group(),
            final(self).spec_vault_name() == old(self).spec_vault_name(),
    {
        self.resource_group = Some(String::from_str(resource_group));
    }

    /// The default resource group, if one is configured.
    pub fn get_resource_group(&self) -> (r: Option<&str>)
        ensures
            r is Some <==> self.spec_resource_group() is Some,
            r matches Some(v) ==> self.spec_resource_group() == Some(v@),
    {
        match &self.resource_group {
            Some(s) => Some(s.as_str()),
            None => None,
        }
    }

    /// Sets the default subscription id.
    pub fn set_subscription_id(&mut self, subscription_id: &str)
        ensures
            final(self).spec_subscription_id() == Some(subscription_id@),
            final(self).spec_resource_group() == old(self).spec_resource_group(),
            final(self).spec_vault_resource_group() == old(self).spec_vault_resource_group(),
            final(self).spec_vault_name() == old(self).spec_vault_name(),
    {
        self.subscription_id = Some(String::from_str(subscription_id));
    }

    /// The default subscription id, if one is configured.
    pub fn get_subscription_id(&self) -> (r: Option<&str>)
        ensures
            r is Some <==> self.spec_subscription_id() is Some,
            r matches Some(v) ==> self.spec_subscription_id() == Some(v@),
    {
        match &self.subscription_id {
            Some(s) => Some(s.as_str()),
            None => None,
        }
    }

    /// Sets the default resource group of the vault.
    pub fn set_vault_resource_group(&mut self, vault_resource_group: &str)
        ensures
            final(self).spec_vault_resource_group() == Some(vault_resource_group@),
            final(self).spec_resource_group() == old(self).spec_resource_group(),
            final(self).spec_subscription_id() == old(self).spec_subscription_id(),
            final(self).spec_vault_name() == old(self).spec_vault_name(),
    {
        self.vault_resource_group = Some(String::from_str(vault_resource_group));
    }

    /// The default resource group of the vault, if one is configured.
    pub fn get_vault_resource_group(&self) -> (r: Option<&str>)
        ensures
            r is Some <==> self.spec_vault_resource_group() is Some,
            r matches Some(v) ==> self.spec_vault_resource_group() == Some(v@),
    {
        match &self.vault_resource_group {
            Some(s) => Some(s.as_str()),
            None => None,
        }
    }

    /// Sets the default vault name.
    pub fn set_vault_name(&mut self, vault_name: &str)
        ensures
            final(self).spec_vault_name() == Some(vault_name@),
            final(self).spec_resource_group() == old(self).spec_resource_group(),
            final(self).spec_subscription_id() == old(self).spec_subscription_id(),
            final(self).spec_vault_resource_group() == old(self).spec_vault_resource_group(),
    {
        self.vault_name = Some(String::from_str(vault_name));
    }

    /// The default vault name, if one is configured.
    pub fn get_vault_name(&self) -> (r: Option<&str>)
        ensures
            r is Some <==> self.spec_vault_name() is Some,
            r matches Some(v) ==> self.spec_vault_name() == Some(v@),
    {
        match &self.vault_name {
            Some(s) => Some(s.as_str()),
            None => None,
        }
    }

    /// Applies the global overrides a command line may carry, each setting
    /// its default only when given.  Says whether anything changed, so the
    /// caller knows whether the store needs saving.
    pub fn apply_settings(
        &mut self,
        set_sub: &Option<String>,
        set_rg: &Option<String>,
        set_vault_rg: &Option<String>,
        set_vault: &Option<String>,
    ) -> (changed: bool)
        ensures
            final(self).spec_subscription_id() == (match set_sub {
                Some(s) => Some(s@),
                None => old(self).spec_subscription_id(),
            }),
            final(self).spec_resource_group() == (match set_rg {
                Some(s) => Some(s@),
                None => old(self).spec_resource_group(),
            }),
            final(self).spec_vault_resource_group() == (match set_vault_rg {
                Some(s) => Some(s@),
                None => old(self).spec_vault_resource_group(),
            }),
            final(self).spec_vault_name() == (match set_vault {
                Some(s) => Some(s@),
                None => old(self).spec_vault_name(),
            }),
            changed == (set_sub is Some || set_rg is Some || set_vault_rg is Some
                || set_vault is Some),
    {
        let mut changed = false;
        if let Some(s) = set_sub {
            self.set_subscription_id(s.as_str());
            changed = true;
        }
        if let Some(s) = set_rg {
            self.set_resource_group(s.as_str());
            changed = true;
        }
        if let Some(s) = set_vault_rg {
            self.set_vault_resource_group(s.as_str());
            changed = true;
        }
        if let Some(s) = set_vault {
            self.set_vault_name(s.as_str());
            changed = true;
        }
        changed
    }
}

impl Default for Store {
    /// A store with nothing configured.
    fn default() -> (r: Store)
        ensures
            r.spec_resource_group() is None,
            r.spec_subscription_id() is None,
            r.spec_vault_resource_group() is None,
            r.spec_vault_name() is None,
    {
        Store::new()
    }
}

/// The given value when one was passed on the command line, else whatever
/// `fallback` yields: the configured default, or the error for a missing
/// setting.
pub fn get_opt<'a, F>(opt: &'a Option<String>, fallback: F) -> (r: Result<&'a str, AppError>) where
    F: FnOnce() -> Result<&'a str, AppError>,

    requires
        opt is None ==> call_requires(fallback, ()),
    ensures
        opt is Some ==> (r matches Ok(v) && v@ == opt.unwrap()@),
        opt is None ==> call_ensures(fallback, (), r),
{
    match opt {
        Some(s) => Ok(s.as_str()),
        None => fallback(),
    }
}

} // verus!
