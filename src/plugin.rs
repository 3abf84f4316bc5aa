use vstd::prelude::*;
use crate::constants::{MINIMUM_API_VERSION, NAME, PLUGIN_ID, VERSION};

verus! {

/// Identity of the plugin, as its host sees it.
#[derive(Debug, Clone, Copy)]
pub struct Plugin {}

impl Plugin {
    /// Unique id of the plugin.
    pub fn id(&self) -> (r: &'static str)
        ensures
            r@ == PLUGIN_ID@,
    {
        PLUGIN_ID
    }

    /// Human-readable name of the plugin.
    pub fn name(&self) -> (r: &'static str)
        ensures
            r@ == NAME@,
    {
        NAME
    }

    /// Version of the plugin.
    pub fn version(&self) -> (r: &'static str)
        ensures
            r@ == VERSION@,
    {
        VERSION
    }

    /// The plugin API version that the plugin supports.
    pub fn minimum_api_version(&self) -> (r: &'static str)
        ensures
            r@ == MINIMUM_API_VERSION@,
    {
        MINIMUM_API_VERSION
    }
}

/// A subscription through which apps join the library.
#[derive(Debug, Clone)]
pub struct SubscriptionProvider {
    name: String,
    management_url: String,
}

impl SubscriptionProvider {
    pub fn new(name: String, management_url: String) -> (r: SubscriptionProvider)
        ensures
            r.spec_name() == name@,
            r.spec_management_url() == management_url@,
    {
        SubscriptionProvider { name, management_url }
    }

    pub closed spec fn spec_name(&self) -> Seq<char> {
        self.name@
    }

    pub closed spec fn spec_management_url(&self) -> Seq<char> {
        self.management_url@
    }

    /// Apps that are in the library only thanks to the subscription; none here.
    pub fn get_apps(&self) -> (r: Vec<String>)
        ensures
            r@.len() == 0,
    {
        Vec::new()
    }

    /// Name of the subscription.
    pub fn name(&self) -> (r: String)
        ensures
            r@ == self.spec_name(),
    {
        self.name.clone()
    }

    pub fn set_name(&mut self, name: String)
        ensures
            final(self).spec_name() == name@,
            final(self).spec_management_url() == old(self).spec_management_url(),
    {
        self.name = name;
    }

    /// Website where the subscription is managed.
    pub fn management_url(&self) -> (r: String)
        ensures
            r@ == self.spec_management_url(),
    {
        self.management_url.clone()
    }

    pub fn set_management_url(&mut self, management_url: String)
        ensures
            final(self).spec_management_url() == management_url@,
            final(self).spec_name() == old(self).spec_name(),
    {
        self.management_url = management_url;
    }
}

} // verus!
