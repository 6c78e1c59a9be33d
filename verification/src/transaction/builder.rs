//! How an endpoint is put together.

use super::endpoint;
use super::endpoint::{EndpointInner, EndpointOption};
use crate::sip::basic::Method;
use crate::transport::sip_addr::SipAddr;
use crate::transport::transport_layer;
use crate::transport::transport_layer::{TransportLayer, TransportLayerView};
use vstd::prelude::*;
use vstd::string::*;

verus! {

/// The parts of an endpoint.
pub struct EndpointBuilder {
    pub allows: Vec<Method>,
    pub user_agent: String,
    pub transport_layer: Option<TransportLayer>,
    /// Milliseconds between two looks at the timers.
    pub timer_interval: Option<u64>,
    pub option: Option<EndpointOption>,
    /// Someone else says where requests go.
    pub has_locator: bool,
}

/// An endpoint of the protocol.
pub struct Endpoint {
    pub inner: EndpointInner,
}

impl EndpointBuilder {
    pub fn new() -> (r: EndpointBuilder)
        ensures
            r.allows@ == Seq::<Method>::empty(),
            r.user_agent@ == "rsipstack"@,
            r.transport_layer is None,
            r.timer_interval is None,
            r.option is None,
            !r.has_locator,
    {
        EndpointBuilder {
            allows: Vec::new(),
            user_agent: "rsipstack".to_owned(),
            transport_layer: None,
            timer_interval: None,
            option: None,
            has_locator: false,
        }
    }

    pub fn with_option(&mut self, option: EndpointOption) -> (r: &mut Self)
        ensures
            *r == (EndpointBuilder { option: Some(option), ..*old(self) }),
            *final(self) == *final(r),
    {
        self.option = Some(option);
        self
    }

    pub fn with_user_agent(&mut self, user_agent: &str) -> (r: &mut Self)
        ensures
            r.user_agent@ == user_agent@,
            *r == (EndpointBuilder { user_agent: r.user_agent, ..*old(self) }),
            *final(self) == *final(r),
    {
        self.user_agent = user_agent.to_owned();
        self
    }

    pub fn with_transport_layer(&mut self, transport_layer: TransportLayer) -> (r: &mut Self)
        ensures
            *r == (EndpointBuilder { transport_layer: Some(transport_layer), ..*old(self) }),
            *final(self) == *final(r),
    {
        self.transport_layer = Some(transport_layer);
        self
    }

    pub fn with_timer_interval(&mut self, timer_interval: u64) -> (r: &mut Self)
        ensures
            *r == (EndpointBuilder { timer_interval: Some(timer_interval), ..*old(self) }),
            *final(self) == *final(r),
    {
        self.timer_interval = Some(timer_interval);
        self
    }

    pub fn with_allows(&mut self, allows: Vec<Method>) -> (r: &mut Self)
        ensures
            *r == (EndpointBuilder { allows, ..*old(self) }),
            *final(self) == *final(r),
    {
        self.allows = allows;
        self
    }

    /// Says that someone else tells where requests go.
    pub fn with_target_locator(&mut self) -> (r: &mut Self)
        ensures
            *r == (EndpointBuilder { has_locator: true, ..*old(self) }),
            *final(self) == *final(r),
    {
        self.has_locator = true;
        self
    }

    /// Puts the endpoint together. The transport layer and the settings go into
    /// it.
    pub fn build(&mut self) -> (r: Endpoint)
        ensures
            exists|t: TransportLayerView|
                #[trigger] endpoint::is_new(
                    r.inner@,
                    old(self).user_agent@,
                    t,
                    old(self).timer_interval,
                    old(self).allows@,
                    endpoint::option_of(old(self).option),
                    old(self).has_locator,
                ) && match old(self).transport_layer {
                    Some(given) => t == given@,
                    None => transport_layer::is_new_layer(t),
                },
            *final(self) == (EndpointBuilder { transport_layer: None, option: None, ..*old(self) }),
    {
        let transport_layer = match self.transport_layer.take() {
            Some(t) => t,
            None => TransportLayer::new(),
        };
        let option = self.option.take();
        let allows = self.allows.clone();
        assert(allows@ == self.allows@);
        let ghost t = transport_layer@;
        let inner = EndpointInner::new(
            self.user_agent.clone(),
            transport_layer,
            self.timer_interval,
            allows,
            option,
            self.has_locator,
        );
        assert(endpoint::is_new(
            inner@,
            old(self).user_agent@,
            t,
            old(self).timer_interval,
            old(self).allows@,
            endpoint::option_of(old(self).option),
            old(self).has_locator,
        ));
        Endpoint { inner }
    }
}

impl Endpoint {
    /// The addresses of the endpoint.
    pub fn get_addrs(&self) -> (addrs: Vec<SipAddr>)
        ensures
            transport_layer::are_addrs_of(
                addrs.deep_view(),
                self.inner@.transport_layer.inner,
            ),
    {
        self.inner.get_addrs()
    }
}

}
