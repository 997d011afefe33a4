pub mod checksum;
pub mod command;
pub mod transport;
pub mod types;

pub use command::{Command, CommandBuilder, CommandDescriptor, DeviceFamily};
pub use transport::Transport;
pub use types::{CommandId, EEPROMAddress, Error};
