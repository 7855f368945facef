//! Device side of the Android Fastboot protocol: command parsing, the
//! session state machine that stages downloaded payloads, reply encoding,
//! and the FunctionFS descriptor records sent to the kernel at startup.

pub mod cmd;
pub mod reply;
pub mod session;
pub mod usb;

pub use cmd::FastbootCmd;
pub use cmd::parse;
pub use reply::FbReply;
pub use session::NextAction;
pub use session::Session;
pub use usb::DescV2;
pub use usb::FfsStringData;
