//! Kits for building native projects with CMake: a catalog of compilers,
//! CMake installations and kits that pair them, the resolution of a kit into
//! directories and a generator, and the environment and arguments under which
//! CMake and an interactive shell are run for a resolved kit.
//!
//! Nothing here touches files, the environment or child processes, except for
//! asking the platform for the user's home directory. What is returned are
//! plain values for a caller to act on.

pub mod cmake;
pub mod dispatch;
pub mod environment;
pub mod error;
pub mod home;
pub mod id_map;
pub mod kit;
pub mod scaffold;
pub mod settings;
pub mod toolchains;
