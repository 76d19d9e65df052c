//! Services.

use vstd::prelude::*;
use crate::types::message::{Message, MessageView};

verus! {

/// A service definition.
#[derive(Debug, Clone, PartialEq, Eq)]
pub struct Service {
    /// The name of the package.
    pub package: String,
    /// The name of the service.
    pub name: String,
    /// The type of the request.
    pub request: Message,
    /// The type of the response.
    pub response: Message,
}

/// The mathematical content of a [`Service`].
pub struct ServiceView {
    pub package: Seq<char>,
    pub name: Seq<char>,
    pub request: MessageView,
    pub response: MessageView,
}

impl ServiceView {
    /// The request and the response are well formed.
    pub open spec fn well_formed(self) -> bool {
        self.request.well_formed() && self.response.well_formed()
    }
}

impl View for Service {
    type V = ServiceView;

    open spec fn view(&self) -> ServiceView {
        ServiceView {
            package: self.package@,
            name: self.name@,
            request: self.request@,
            response: self.response@,
        }
    }
}

} // verus!
