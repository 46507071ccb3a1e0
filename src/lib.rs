//! Supervision of a single screen-capture session: a single-instance lock,
//! shutter-sound suppression, debounced display-topology monitoring and the
//! line protocol spoken by the capture process.
pub mod text;
pub mod protocol;
pub mod topology;
pub mod audio;
pub mod session;
pub mod lock;
pub mod launch;
pub mod probe;
pub mod layout;
