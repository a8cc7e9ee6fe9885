//! Finding a task to open a shell in.
//!
//! A container service groups its tasks by service and its services by
//! cluster. This library walks that hierarchy: it pages through the listings,
//! derives the names under which entries are shown, keeps of the tasks those
//! that run and take commands, orders what the operator chooses from, and
//! says which call comes next. It makes no call itself: `session` hands out
//! one action at a time and takes what came of it.

pub mod names;
pub mod text;
pub mod listing;
pub mod choice;
pub mod paging;
pub mod errors;
pub mod clusters;
pub mod services;
pub mod tasks;
pub mod validator;
pub mod runs;
pub mod launch;
pub mod session;
