//! The rules of a chat room server: who a user is, which chat a request
//! means, who is told about a change, and what each call answers.
//!
//! The library holds no socket and no file. The program around it reads and
//! writes the records and moves the messages; every decision is taken here.

pub mod ascending;
pub mod client_service;
pub mod events;
pub mod identity;
pub mod listeners;
pub mod presence;
pub mod proto;
pub mod room;
pub mod seqs;
pub mod server;
pub mod server_service;
pub mod status;
pub mod storage;
pub mod ui;
pub mod user;
