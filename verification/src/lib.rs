//! A court for a guild on a chat platform: lawsuits are opened in court rooms, each a channel
//! with a role of its own, and closed with a verdict; members are put in prison and released.
//!
//! The court decides and does nothing itself. A workflow is a machine that is handed what
//! came back from its last request and says what it wants done next (`protocol`): `lawsuit`
//! holds the opening and closing of a lawsuit, `handler` the commands and the arrival of a
//! member. `model` holds what is recorded of a guild, `store` what each request to the store
//! means, and `laws` what holds of a record as the workflows run against it.
pub mod decimal;
pub mod handler;
pub mod laws;
pub mod lawsuit;
pub mod model;
pub mod protocol;
pub mod store;
