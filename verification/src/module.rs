//! The context a module registers its sources, outputs, encoders and
//! services with while it loads.
//!
//! The context keeps every registration it accepts, in the order they were
//! made, for the lifetime of the module; the plugin glue hands each of them
//! to OBS.

use vstd::prelude::*;

use crate::encoder::traits::Encodable;
use crate::encoder::{EncoderCallbacks, EncoderInfo, EncoderInfoBuilder};
use crate::output::traits::Outputable;
use crate::output::{OutputCallbacks, OutputInfo, OutputInfoBuilder};
use crate::service::traits::Serviceable;
use crate::service::{ServiceCallbacks, ServiceInfo, ServiceInfoBuilder};
use crate::source::traits::Sourceable;
use crate::source::{Icon, SourceCallbacks, SourceInfo, SourceInfoBuilder};

verus! {

/// The registrations a module makes while it loads.
pub struct LoadContext {
    sources: Vec<SourceInfo>,
    outputs: Vec<OutputInfo>,
    encoders: Vec<EncoderInfo>,
    services: Vec<ServiceInfo>,
}

impl LoadContext {
    /// The sources registered so far, in order.
    pub closed spec fn spec_sources(&self) -> Seq<SourceInfo> {
        self.sources@
    }

    /// The outputs registered so far, in order.
    pub closed spec fn spec_outputs(&self) -> Seq<OutputInfo> {
        self.outputs@
    }

    /// The encoders registered so far, in order.
    pub closed spec fn spec_encoders(&self) -> Seq<EncoderInfo> {
        self.encoders@
    }

    /// The services registered so far, in order.
    pub closed spec fn spec_services(&self) -> Seq<ServiceInfo> {
        self.services@
    }

    /// A context with no registration.
    pub fn new() -> (r: Self)
        ensures
            r.spec_sources() == Seq::<SourceInfo>::empty(),
            r.spec_outputs() == Seq::<OutputInfo>::empty(),
            r.spec_encoders() == Seq::<EncoderInfo>::empty(),
            r.spec_services() == Seq::<ServiceInfo>::empty(),
    {
        LoadContext {
            sources: Vec::new(),
            outputs: Vec::new(),
            encoders: Vec::new(),
            services: Vec::new(),
        }
    }

    /// Returns a fresh [`SourceInfoBuilder`] for the source type `D`.
    pub fn create_source_builder<D: Sourceable>(&self) -> (r: SourceInfoBuilder<D>)
        ensures
            r.spec_flags() == 0,
            r.spec_callbacks() == SourceCallbacks::spec_none(),
            r.spec_icon() == Icon::Unknown,
    {
        SourceInfoBuilder::new()
    }

    /// Returns a fresh [`OutputInfoBuilder`] for the output type `D`.
    pub fn create_output_builder<D: Outputable>(&self) -> (r: OutputInfoBuilder<D>)
        ensures
            r.spec_flags() == 0,
            r.spec_callbacks() == OutputCallbacks::spec_none(),
    {
        OutputInfoBuilder::new()
    }

    /// Returns a fresh [`EncoderInfoBuilder`] for the encoder type `D`.
    pub fn create_encoder_builder<D: Encodable>(&self) -> (r: EncoderInfoBuilder<D>)
        ensures
            r.spec_info().caps == 0,
            r.spec_info().callbacks == EncoderCallbacks::spec_none(),
    {
        EncoderInfoBuilder::new()
    }

    /// Returns a fresh [`ServiceInfoBuilder`] for the service type `D`.
    pub fn create_service_builder<D: Serviceable>(&self) -> (r: ServiceInfoBuilder<D>)
        ensures
            r.spec_callbacks() == ServiceCallbacks::spec_none(),
    {
        ServiceInfoBuilder::new()
    }

    /// Registers a source; the context keeps it until the module unloads.
    pub fn register_source(&mut self, source: SourceInfo)
        ensures
            final(self).spec_sources() == old(self).spec_sources().push(source),
            final(self).spec_outputs() == old(self).spec_outputs(),
            final(self).spec_encoders() == old(self).spec_encoders(),
            final(self).spec_services() == old(self).spec_services(),
    {
        self.sources.push(source);
    }

    /// Registers an output; the context keeps it until the module unloads.
    pub fn register_output(&mut self, output: OutputInfo)
        ensures
            final(self).spec_sources() == old(self).spec_sources(),
            final(self).spec_outputs() == old(self).spec_outputs().push(output),
            final(self).spec_encoders() == old(self).spec_encoders(),
            final(self).spec_services() == old(self).spec_services(),
    {
        self.outputs.push(output);
    }

    /// Registers an encoder; the context keeps it until the module unloads.
    pub fn register_encoder(&mut self, encoder: EncoderInfo)
        ensures
            final(self).spec_sources() == old(self).spec_sources(),
            final(self).spec_outputs() == old(self).spec_outputs(),
            final(self).spec_encoders() == old(self).spec_encoders().push(encoder),
            final(self).spec_services() == old(self).spec_services(),
    {
        self.encoders.push(encoder);
    }

    /// Registers a service; the context keeps it until the module unloads.
    pub fn register_service(&mut self, service: ServiceInfo)
        ensures
            final(self).spec_sources() == old(self).spec_sources(),
            final(self).spec_outputs() == old(self).spec_outputs(),
            final(self).spec_encoders() == old(self).spec_encoders(),
            final(self).spec_services() == old(self).spec_services().push(service),
    {
        self.services.push(service);
    }

    /// The sources registered so far, in order.
    pub fn sources(&self) -> (r: &Vec<SourceInfo>)
        ensures
            r@ == self.spec_sources(),
    {
        &self.sources
    }

    /// The outputs registered so far, in order.
    pub fn outputs(&self) -> (r: &Vec<OutputInfo>)
        ensures
            r@ == self.spec_outputs(),
    {
        &self.outputs
    }

    /// The encoders registered so far, in order.
    pub fn encoders(&self) -> (r: &Vec<EncoderInfo>)
        ensures
            r@ == self.spec_encoders(),
    {
        &self.encoders
    }

    /// The services registered so far, in order.
    pub fn services(&self) -> (r: &Vec<ServiceInfo>)
        ensures
            r@ == self.spec_services(),
    {
        &self.services
    }
}

} // verus!
