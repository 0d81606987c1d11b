//! Bootstrap of a desktop application's local services: a vector database
//! in a container, a dependency archive unpacked once, and a backend server
//! process, brought up in order by a state machine whose progress a polling
//! caller reads as a status snapshot.

pub mod container;
pub mod env;
pub mod select;
pub mod sequence;
pub mod status;
pub mod text;

pub use container::{containers_to_stop, ContainerSpec};
pub use env::{parse_dotenv, EnvVars, StorageRoot};
pub use select::{find_project_root, resolve_backend_paths, Layout, LayoutCheck, RootChoice};
pub use sequence::{Action, Event, Sequencer, Stage};
pub use status::{log_docker_output, Phase, StartupState, StartupStatus};
