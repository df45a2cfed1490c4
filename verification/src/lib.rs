//! A small key-value service: clients store a hash under a key and load it back.
//! The request and response types, the storage and its operations, the serving of
//! requests and commands, and the conversions between bytes and text are verified here.

pub mod checkers;
pub mod client_communication;
pub mod handle_client;
pub mod map;
pub mod senders;
pub mod structures;
pub mod transformers;

pub use checkers::checker;
pub use client_communication::handle_request;
pub use handle_client::{execute_command, reply_to_name};
pub use map::{load, store, Storage};
pub use senders::student_name_reply;
pub use structures::{
    type_of_request, ClientRequest, CommandLoad, CommandUniversal, Name, NameOutput,
    RequestResponse,
};
pub use transformers::{load_to_command, string_to_vec, vec_to_string};
