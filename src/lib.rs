//! Drives an addressable LED panel over its HTTP/JSON control interface:
//! an image is fitted to the panel's grid, compressed into runs of equal
//! colour, rendered as a segment-update payload and handed to a transport.

pub mod command;
pub mod encoder;
pub mod grid;
pub mod normalize;
pub mod pipeline;
pub mod transport;

pub use grid::{CoreError, PanelConfig, PixelGrid, Rgb};
pub use encoder::{encode, Run};
pub use normalize::{fit_policy, normalize, Fit};
pub use command::{build_off_command, build_state_command};
pub use transport::{
    interpret_outcome, off_request, query_request, request_headers, state_update_request,
    state_url, DeviceConfig, HttpMethod, Request, SendOutcome, TransportError,
};
pub use pipeline::{prepare_update, update_request_for, Settings};
