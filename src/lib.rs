//! Delayed one-shot desktop notifications: the command line is read into a
//! request, and a small dispatcher decides when the notification is shown.

pub mod seconds;
pub mod request;
pub mod cli;
pub mod dispatch;
