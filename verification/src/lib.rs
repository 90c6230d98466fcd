//! The verified core of an asynchronous Language Server Protocol (LSP) framework.
//!
//! The library is centered at a core service trait [`LspService`] for either Language Servers or
//! Language Clients. The main loop [`MainLoop`] drives the service, in a [`run::Run`]. The additional
//! features, called middleware, are services around services. These are the middlewares:
//! - [`concurrency::Concurrency`]: Incoming request multiplexing and cancellation.
//! - [`panic::CatchUnwind`]: Turn panics into errors.
//! - [`instrument::Tracing`]: Logger spans with methods instrumenting handlers.
//! - [`server::Lifecycle`]: Server initialization, shutting down, and exit handling.
//! - [`client_monitor::ClientProcessMonitor`]: Client process monitor.
//! - [`router::Router`]: "Root" service to dispatch requests, notifications and events.
//! - [`steer::LspSteer`]: Routing between multiple services.
//!
//! The library does no input or output and waits for nothing. It says what each message leads to,
//! and the program around it reads, writes and waits.
pub mod can_handle;
pub mod channel;
pub mod client_monitor;
pub mod concurrency;
pub mod error;
pub mod event;
pub mod frame;
pub mod instrument;
pub mod json;
pub mod key_map;
pub mod limits;
pub mod main_loop;
pub mod message;
pub mod monitor;
pub mod omni_trait;
pub mod panic;
pub mod permit;
pub mod router;
pub mod run;
pub mod server;
pub mod service;
pub mod socket;
pub mod stdio;
pub mod steer;
pub mod text;
pub mod traffic;
pub mod util;

pub use lsp_types;

pub use crate::error::{Error, ErrorCode, ResponseError, Result};
pub use crate::event::AnyEvent;
pub use crate::main_loop::MainLoop;
pub use crate::message::{AnyNotification, AnyRequest, AnyResponse, Message, RequestId};
pub use crate::service::{LspService, Poll};
pub use crate::socket::{ClientSocket, ServerSocket};
