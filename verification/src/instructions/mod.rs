//! The instructions of the bridge, one module each.

pub mod bridge_request;
pub mod bridge_tokens;
pub mod close_requests;
pub mod initialize;
pub mod validator_set_change;

pub use bridge_request::BridgeRequest;
pub use bridge_tokens::BridgeTokens;
pub use close_requests::CloseRequest;
pub use initialize::Initialize;
pub use validator_set_change::ValidatorSetChange;
