//! Cross-platform desktop notifications through a native helper program.
//!
//! The library holds the verified logic: the notification value and its
//! builder, the choice of backend for a platform, the sanitising of the
//! message for each helper, and the exact shell command line handed to the
//! helper. Spawning the helper and leaving the process when it is missing
//! are left to the caller, which runs the returned `Dispatch`.
//!
//! Text is owned: a `Notification` holds `String`s, so it does not borrow
//! from the caller.
pub mod command;
pub mod dispatch;
pub mod notification;

pub use command::{notify_send_command, replace_quotes, strip_brackets, terminal_notifier_command};
pub use dispatch::{select_backend, Backend, Dispatch, Platform, Step, HELPER_MISSING_EXIT_CODE};
pub use notification::{BuildError, Notification, NotificationBuilder, RequiredField};
