//! Utility traits for services.
use vstd::prelude::*;

use crate::can_handle::CanHandle;
use crate::event::AnyEvent;
use crate::message::{AnyNotification, AnyRequest};
use crate::service::LspService;

verus! {

/// A service that tells which messages it can handle.
pub trait LspServiceWithCanHandle<Response, Error>: LspService<
    Response = Response,
    Error = Error,
> + CanHandle<AnyRequest> + CanHandle<AnyNotification> + CanHandle<AnyEvent> {

}

impl<T, Response, Error> LspServiceWithCanHandle<Response, Error> for T where
    T: LspService<Response = Response, Error = Error> + CanHandle<AnyRequest> + CanHandle<
        AnyNotification,
    > + CanHandle<AnyEvent>,
 {

}

} // verus!
