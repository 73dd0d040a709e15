//! Device data whose parts are released at different moments of a device's removal.

use crate::error::Error;
use vstd::prelude::*;

verus! {

/// Device data.
///
/// When a device is removed, the driver is given a chance to clean its state
/// up, and all io resources should ideally not be used anymore. Other parts
/// of the system may still hold the data, so some device state must be freed
/// and not used anymore, while other state must remain accessible.
///
/// This struct separates the device data into three categories:
///   1. Registrations: are destroyed when the device is removed, but before the io resources
///      become inaccessible.
///   2. Io resources: are available until the device is removed.
///   3. General data: remain available as long as the data exists.
pub struct Data<T, U, V> {
    registrations: Option<T>,
    resources: Option<U>,
    general: V,
}

impl<T, U, V> Data<T, U, V> {
    /// The registrations, while the device is not removed.
    pub closed spec fn spec_registrations(&self) -> Option<T> {
        self.registrations
    }

    /// The resources, while the device is not removed.
    pub closed spec fn spec_resources(&self) -> Option<U> {
        self.resources
    }

    /// The general data.
    pub closed spec fn spec_general(&self) -> V {
        self.general
    }

    /// Whether the device was removed.
    pub open spec fn removed(&self) -> bool {
        self.spec_registrations() is None && self.spec_resources() is None
    }

    /// Creates a new instance of `Data`, with all three parts available.
    pub fn try_new(registrations: T, resources: U, general: V) -> (data: Result<Data<T, U, V>, Error>)
        ensures
            data matches Ok(d) && d.spec_registrations() == Some(registrations)
                && d.spec_resources() == Some(resources) && d.spec_general() == general,
    {
        Ok(Data { registrations: Some(registrations), resources: Some(resources), general })
    }

    /// Returns the resources if they're still available.
    pub fn resources(&self) -> (resources: Option<&U>)
        ensures
            resources is Some == self.spec_resources() is Some,
            resources matches Some(r) ==> *r == self.spec_resources()->0,
    {
        self.resources.as_ref()
    }

    /// Returns the registrations if they're still available.
    pub fn registrations(&self) -> (registrations: Option<&T>)
        ensures
            registrations is Some == self.spec_registrations() is Some,
            registrations matches Some(r) ==> *r == self.spec_registrations()->0,
    {
        self.registrations.as_ref()
    }

    /// Returns the registrations for changing them, if they're still available.
    pub fn registrations_mut(&mut self) -> (registrations: Option<&mut T>)
        ensures
            registrations is Some == old(self).spec_registrations() is Some,
            registrations matches Some(r) ==> *r == old(self).spec_registrations()->0
                && final(self).spec_registrations() == Some(*final(r)),
            registrations is None ==> final(self).spec_registrations() is None,
            final(self).spec_resources() == old(self).spec_resources(),
            final(self).spec_general() == old(self).spec_general(),
    {
        self.registrations.as_mut()
    }

    /// Returns the general data.
    pub fn general(&self) -> (general: &V)
        ensures
            *general == self.spec_general(),
    {
        &self.general
    }

    /// Removes the device: the registrations are revoked first, so that the
    /// resources are still there while they are taken down, then the
    /// resources. The general data remains.
    pub fn device_remove(&mut self)
        ensures
            final(self).removed(),
            final(self).spec_general() == old(self).spec_general(),
        no_unwind
    {
        self.registrations = None;
        self.resources = None;
    }
}

} // verus!
