//! Plain protocol values selected in the compose and bind forms.

pub mod data_coding;
pub mod esm_class;
pub mod interface_version;
pub mod mode;
pub mod npi;
pub mod priority_flag;
pub mod ton;

pub use data_coding::DataCoding;
pub use esm_class::{Ansi41Specific, EsmClass, GsmFeatures, MessageType, MessagingMode};
pub use interface_version::InterfaceVersion;
pub use mode::BindMode;
pub use npi::Npi;
pub use priority_flag::{
    Ansi41CbsPriorityFlag, Ansi136PriorityFlag, GsmCbsPriorityFlag, GsmSmsPriorityFlag,
    Is95PriorityFlag,
};
pub use ton::Ton;
